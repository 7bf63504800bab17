use vstd::prelude::*;
use vstd::string::StringExecFns;
use crate::validate::SchemaMode;

verus! {

// ---------------------------------------------------------------------
// Descriptor types
// ---------------------------------------------------------------------

/// The type of a field's value in the schema descriptor: free text, a
/// file-system path, semantic-version text, a reference to a named
/// descriptor, or a list of such references.
#[derive(Debug, PartialEq, Eq)]
pub enum TypeSchema {
    Text,
    Path,
    VersionText,
    Ref(String),
    ListRef(String),
}

pub enum TypeSchemaV {
    Text,
    Path,
    VersionText,
    Ref(Seq<char>),
    ListRef(Seq<char>),
}

impl View for TypeSchema {
    type V = TypeSchemaV;

    open spec fn view(&self) -> TypeSchemaV {
        match self {
            TypeSchema::Text => TypeSchemaV::Text,
            TypeSchema::Path => TypeSchemaV::Path,
            TypeSchema::VersionText => TypeSchemaV::VersionText,
            TypeSchema::Ref(n) => TypeSchemaV::Ref(n@),
            TypeSchema::ListRef(n) => TypeSchemaV::ListRef(n@),
        }
    }
}

/// One field of a record descriptor: its name, whether it is required,
/// and its type.
#[derive(Debug, PartialEq, Eq)]
pub struct FieldSchema {
    pub name: String,
    pub required: bool,
    pub ty: TypeSchema,
}

pub struct FieldSchemaV {
    pub name: Seq<char>,
    pub required: bool,
    pub ty: TypeSchemaV,
}

impl View for FieldSchema {
    type V = FieldSchemaV;

    open spec fn view(&self) -> FieldSchemaV {
        FieldSchemaV { name: self.name@, required: self.required, ty: self.ty@ }
    }
}

/// A record descriptor: a named set of fields in declaration order.
#[derive(Debug, PartialEq, Eq)]
pub struct RecordSchema {
    pub name: String,
    pub fields: Vec<FieldSchema>,
}

pub struct RecordSchemaV {
    pub name: Seq<char>,
    pub fields: Seq<FieldSchemaV>,
}

/// The element-wise views of a field list.
pub open spec fn field_views(s: Seq<FieldSchema>) -> Seq<FieldSchemaV> {
    Seq::new(s.len(), |i: int| s[i]@)
}

impl View for RecordSchema {
    type V = RecordSchemaV;

    open spec fn view(&self) -> RecordSchemaV {
        RecordSchemaV { name: self.name@, fields: field_views(self.fields@) }
    }
}

/// One arm of a tagged union: its discriminant key and the type of its
/// payload.
#[derive(Debug, PartialEq, Eq)]
pub struct VariantSchema {
    pub tag: String,
    pub payload: TypeSchema,
}

pub struct VariantSchemaV {
    pub tag: Seq<char>,
    pub payload: TypeSchemaV,
}

impl View for VariantSchema {
    type V = VariantSchemaV;

    open spec fn view(&self) -> VariantSchemaV {
        VariantSchemaV { tag: self.tag@, payload: self.payload@ }
    }
}

/// A tagged-union descriptor: its name and its accepted tags with their
/// payload shapes.
#[derive(Debug, PartialEq, Eq)]
pub struct UnionSchema {
    pub name: String,
    pub tags: Vec<VariantSchema>,
}

pub struct UnionSchemaV {
    pub name: Seq<char>,
    pub tags: Seq<VariantSchemaV>,
}

/// The element-wise views of a variant list.
pub open spec fn variant_views(s: Seq<VariantSchema>) -> Seq<VariantSchemaV> {
    Seq::new(s.len(), |i: int| s[i]@)
}

impl View for UnionSchema {
    type V = UnionSchemaV;

    open spec fn view(&self) -> UnionSchemaV {
        UnionSchemaV { name: self.name@, tags: variant_views(self.tags@) }
    }
}

/// An enumerated-literal descriptor: its name and the accepted external
/// spellings, in declaration order.
#[derive(Debug, PartialEq, Eq)]
pub struct TokenSchema {
    pub name: String,
    pub literals: Vec<String>,
}

pub struct TokenSchemaV {
    pub name: Seq<char>,
    pub literals: Seq<Seq<char>>,
}

impl View for TokenSchema {
    type V = TokenSchemaV;

    open spec fn view(&self) -> TokenSchemaV {
        TokenSchemaV { name: self.name@, literals: self.literals.deep_view() }
    }
}

/// The schema descriptor of the configuration model: record, union and
/// token descriptors in declaration order. Derived from the model's
/// static shape alone — generation never looks at, or requires, a
/// configuration document.
#[derive(Debug, PartialEq, Eq)]
pub struct Schema {
    pub records: Vec<RecordSchema>,
    pub unions: Vec<UnionSchema>,
    pub tokens: Vec<TokenSchema>,
}

pub struct SchemaV {
    pub records: Seq<RecordSchemaV>,
    pub unions: Seq<UnionSchemaV>,
    pub tokens: Seq<TokenSchemaV>,
}

/// The element-wise views of a record-descriptor list.
pub open spec fn record_views(s: Seq<RecordSchema>) -> Seq<RecordSchemaV> {
    Seq::new(s.len(), |i: int| s[i]@)
}

/// The element-wise views of a union-descriptor list.
pub open spec fn union_views(s: Seq<UnionSchema>) -> Seq<UnionSchemaV> {
    Seq::new(s.len(), |i: int| s[i]@)
}

/// The element-wise views of a token-descriptor list.
pub open spec fn token_views(s: Seq<TokenSchema>) -> Seq<TokenSchemaV> {
    Seq::new(s.len(), |i: int| s[i]@)
}

impl View for Schema {
    type V = SchemaV;

    open spec fn view(&self) -> SchemaV {
        SchemaV {
            records: record_views(self.records@),
            unions: union_views(self.unions@),
            tokens: token_views(self.tokens@),
        }
    }
}

// ---------------------------------------------------------------------
// The model's schema
// ---------------------------------------------------------------------

/// The fields of the top-level record in the given mode.
pub open spec fn spec_config_fields(mode: SchemaMode) -> Seq<FieldSchemaV> {
    let own = seq![
        FieldSchemaV { name: "name"@, required: true, ty: TypeSchemaV::Text },
        FieldSchemaV { name: "version"@, required: true, ty: TypeSchemaV::VersionText },
        FieldSchemaV { name: "description"@, required: false, ty: TypeSchemaV::Text },
    ];
    match mode {
        SchemaMode::Flattened => own + spec_appdata_field_schemas(),
        SchemaMode::Nested => own + seq![
            FieldSchemaV { name: "data"@, required: true, ty: TypeSchemaV::Ref("AppData"@) },
        ],
    }
}

/// The application-data field descriptors, in declaration order.
pub open spec fn spec_appdata_field_schemas() -> Seq<FieldSchemaV> {
    seq![
        FieldSchemaV { name: "source"@, required: true, ty: TypeSchemaV::Ref("Source"@) },
        FieldSchemaV { name: "target"@, required: true, ty: TypeSchemaV::Path },
        FieldSchemaV { name: "actions"@, required: true, ty: TypeSchemaV::ListRef("Actions"@) },
    ]
}

/// The source union descriptor.
pub open spec fn spec_source_union() -> UnionSchemaV {
    UnionSchemaV {
        name: "Source"@,
        tags: seq![
            VariantSchemaV { tag: "file"@, payload: TypeSchemaV::Path },
            VariantSchemaV { tag: "url"@, payload: TypeSchemaV::Text },
        ],
    }
}

/// The action-token descriptor: the same spelling table the decoder
/// uses, `fbb` included.
pub open spec fn spec_actions_token() -> TokenSchemaV {
    TokenSchemaV { name: "Actions"@, literals: crate::validate::spec_action_literal_set() }
}

/// The whole descriptor for the given mode. In flattened mode the
/// application-data fields stand inside the top-level record; in nested
/// mode they form a referenced record of their own.
pub open spec fn spec_config_schema(mode: SchemaMode) -> SchemaV {
    SchemaV {
        records: match mode {
            SchemaMode::Flattened => seq![
                RecordSchemaV { name: "Config"@, fields: spec_config_fields(mode) },
            ],
            SchemaMode::Nested => seq![
                RecordSchemaV { name: "Config"@, fields: spec_config_fields(mode) },
                RecordSchemaV { name: "AppData"@, fields: spec_appdata_field_schemas() },
            ],
        },
        unions: seq![spec_source_union()],
        tokens: seq![spec_actions_token()],
    }
}

/// Derive the schema descriptor of the model for the given mode. The
/// result is pinned to [`spec_config_schema`], a function of the mode
/// alone, so two invocations always agree.
pub fn describe_model(mode: SchemaMode) -> (s: Schema)
    ensures
        s@ == spec_config_schema(mode),
{
    let mut config_fields: Vec<FieldSchema> = Vec::new();
    config_fields.push(
        FieldSchema { name: "name".to_owned(), required: true, ty: TypeSchema::Text },
    );
    config_fields.push(
        FieldSchema { name: "version".to_owned(), required: true, ty: TypeSchema::VersionText },
    );
    config_fields.push(
        FieldSchema { name: "description".to_owned(), required: false, ty: TypeSchema::Text },
    );
    let mut records: Vec<RecordSchema> = Vec::new();
    match mode {
        SchemaMode::Flattened => {
            let mut app = appdata_field_schemas();
            config_fields.append(&mut app);
            records.push(RecordSchema { name: "Config".to_owned(), fields: config_fields });
        },
        SchemaMode::Nested => {
            config_fields.push(
                FieldSchema {
                    name: "data".to_owned(),
                    required: true,
                    ty: TypeSchema::Ref("AppData".to_owned()),
                },
            );
            records.push(RecordSchema { name: "Config".to_owned(), fields: config_fields });
            records.push(
                RecordSchema { name: "AppData".to_owned(), fields: appdata_field_schemas() },
            );
        },
    }
    let mut tags: Vec<VariantSchema> = Vec::new();
    tags.push(VariantSchema { tag: "file".to_owned(), payload: TypeSchema::Path });
    tags.push(VariantSchema { tag: "url".to_owned(), payload: TypeSchema::Text });
    let mut unions: Vec<UnionSchema> = Vec::new();
    unions.push(UnionSchema { name: "Source".to_owned(), tags });
    let mut tokens: Vec<TokenSchema> = Vec::new();
    tokens.push(
        TokenSchema { name: "Actions".to_owned(), literals: crate::validate::action_literal_set() },
    );
    let s = Schema { records, unions, tokens };
    proof {
        assert(s@.records =~= spec_config_schema(mode).records) by {
            assert forall|i: int| 0 <= i < s@.records.len() implies s@.records[i]
                == spec_config_schema(mode).records[i] by {
                assert(s@.records[i].fields =~= spec_config_schema(mode).records[i].fields);
            }
        }
        assert(s@.unions =~= spec_config_schema(mode).unions) by {
            assert(s@.unions[0].tags =~= spec_source_union().tags);
        }
        assert(s@.tokens =~= spec_config_schema(mode).tokens) by {
            assert(s@.tokens[0].literals =~= spec_actions_token().literals);
        }
    }
    s
}

/// The application-data field descriptors.
fn appdata_field_schemas() -> (r: Vec<FieldSchema>)
    ensures
        field_views(r@) == spec_appdata_field_schemas(),
{
    let mut fields: Vec<FieldSchema> = Vec::new();
    fields.push(
        FieldSchema {
            name: "source".to_owned(),
            required: true,
            ty: TypeSchema::Ref("Source".to_owned()),
        },
    );
    fields.push(FieldSchema { name: "target".to_owned(), required: true, ty: TypeSchema::Path });
    fields.push(
        FieldSchema {
            name: "actions".to_owned(),
            required: true,
            ty: TypeSchema::ListRef("Actions".to_owned()),
        },
    );
    proof {
        assert(field_views(fields@) =~= spec_appdata_field_schemas());
    }
    fields
}

// ---------------------------------------------------------------------
// Rendering the descriptor as text
// ---------------------------------------------------------------------

/// The rendered form of a field type.
pub open spec fn spec_render_type(t: TypeSchemaV) -> Seq<char> {
    match t {
        TypeSchemaV::Text => "\"text\""@,
        TypeSchemaV::Path => "\"path\""@,
        TypeSchemaV::VersionText => "\"version\""@,
        TypeSchemaV::Ref(n) => "\"ref:"@ + n + "\""@,
        TypeSchemaV::ListRef(n) => "\"list:"@ + n + "\""@,
    }
}

/// The rendered form of one field descriptor.
pub open spec fn spec_render_field(f: FieldSchemaV) -> Seq<char> {
    "{\"name\":\""@ + f.name + "\",\"required\":"@ + (if f.required {
        "true"@
    } else {
        "false"@
    }) + ",\"type\":"@ + spec_render_type(f.ty) + "}"@
}

/// The rendered, comma-separated field descriptors from position `i` on.
pub open spec fn spec_render_fields(fs: Seq<FieldSchemaV>, i: int) -> Seq<char>
    decreases fs.len() - i,
{
    if i < 0 || i >= fs.len() {
        Seq::empty()
    } else {
        (if i > 0 {
            ","@
        } else {
            Seq::empty()
        }) + spec_render_field(fs[i]) + spec_render_fields(fs, i + 1)
    }
}

/// The rendered form of one record descriptor.
pub open spec fn spec_render_record(r: RecordSchemaV) -> Seq<char> {
    "{\"record\":\""@ + r.name + "\",\"fields\":["@ + spec_render_fields(r.fields, 0) + "]}"@
}

/// The rendered, comma-separated record descriptors from position `i`
/// on.
pub open spec fn spec_render_records(rs: Seq<RecordSchemaV>, i: int) -> Seq<char>
    decreases rs.len() - i,
{
    if i < 0 || i >= rs.len() {
        Seq::empty()
    } else {
        (if i > 0 {
            ","@
        } else {
            Seq::empty()
        }) + spec_render_record(rs[i]) + spec_render_records(rs, i + 1)
    }
}

/// The rendered form of one union arm.
pub open spec fn spec_render_variant(v: VariantSchemaV) -> Seq<char> {
    "{\"tag\":\""@ + v.tag + "\",\"payload\":"@ + spec_render_type(v.payload) + "}"@
}

/// The rendered, comma-separated union arms from position `i` on.
pub open spec fn spec_render_variants(vs: Seq<VariantSchemaV>, i: int) -> Seq<char>
    decreases vs.len() - i,
{
    if i < 0 || i >= vs.len() {
        Seq::empty()
    } else {
        (if i > 0 {
            ","@
        } else {
            Seq::empty()
        }) + spec_render_variant(vs[i]) + spec_render_variants(vs, i + 1)
    }
}

/// The rendered form of one union descriptor.
pub open spec fn spec_render_union(u: UnionSchemaV) -> Seq<char> {
    "{\"union\":\""@ + u.name + "\",\"tags\":["@ + spec_render_variants(u.tags, 0) + "]}"@
}

/// The rendered, comma-separated union descriptors from position `i`
/// on.
pub open spec fn spec_render_unions(us: Seq<UnionSchemaV>, i: int) -> Seq<char>
    decreases us.len() - i,
{
    if i < 0 || i >= us.len() {
        Seq::empty()
    } else {
        (if i > 0 {
            ","@
        } else {
            Seq::empty()
        }) + spec_render_union(us[i]) + spec_render_unions(us, i + 1)
    }
}

/// The rendered, comma-separated, quoted literal spellings from
/// position `i` on.
pub open spec fn spec_render_literals(ls: Seq<Seq<char>>, i: int) -> Seq<char>
    decreases ls.len() - i,
{
    if i < 0 || i >= ls.len() {
        Seq::empty()
    } else {
        (if i > 0 {
            ","@
        } else {
            Seq::empty()
        }) + "\""@ + ls[i] + "\""@ + spec_render_literals(ls, i + 1)
    }
}

/// The rendered form of one token descriptor.
pub open spec fn spec_render_token(t: TokenSchemaV) -> Seq<char> {
    "{\"token\":\""@ + t.name + "\",\"literals\":["@ + spec_render_literals(t.literals, 0) + "]}"@
}

/// The rendered, comma-separated token descriptors from position `i`
/// on.
pub open spec fn spec_render_tokens(ts: Seq<TokenSchemaV>, i: int) -> Seq<char>
    decreases ts.len() - i,
{
    if i < 0 || i >= ts.len() {
        Seq::empty()
    } else {
        (if i > 0 {
            ","@
        } else {
            Seq::empty()
        }) + spec_render_token(ts[i]) + spec_render_tokens(ts, i + 1)
    }
}

/// The rendered form of a whole schema descriptor.
pub open spec fn spec_render_schema(s: SchemaV) -> Seq<char> {
    "{\"records\":["@ + spec_render_records(s.records, 0) + "],\"unions\":["@ + spec_render_unions(
        s.unions,
        0,
    ) + "],\"tokens\":["@ + spec_render_tokens(s.tokens, 0) + "]}"@
}

/// The schema artifact for a mode: the rendered form of the model's
/// descriptor, a function of the mode alone.
pub open spec fn spec_schema_text(mode: SchemaMode) -> Seq<char> {
    spec_render_schema(spec_config_schema(mode))
}

fn push_type(out: &mut String, t: &TypeSchema)
    ensures
        final(out)@ == old(out)@ + spec_render_type(t@),
{
    match t {
        TypeSchema::Text => out.append("\"text\""),
        TypeSchema::Path => out.append("\"path\""),
        TypeSchema::VersionText => out.append("\"version\""),
        TypeSchema::Ref(n) => {
            out.append("\"ref:");
            out.append(n.as_str());
            out.append("\"");
        },
        TypeSchema::ListRef(n) => {
            out.append("\"list:");
            out.append(n.as_str());
            out.append("\"");
        },
    }
    proof {
        assert(out@ =~= old(out)@ + spec_render_type(t@));
    }
}

fn push_field(out: &mut String, f: &FieldSchema)
    ensures
        final(out)@ == old(out)@ + spec_render_field(f@),
{
    out.append("{\"name\":\"");
    out.append(f.name.as_str());
    out.append("\",\"required\":");
    if f.required {
        out.append("true");
    } else {
        out.append("false");
    }
    out.append(",\"type\":");
    push_type(out, &f.ty);
    out.append("}");
    proof {
        assert(out@ =~= old(out)@ + spec_render_field(f@));
    }
}

fn push_fields(out: &mut String, fs: &Vec<FieldSchema>)
    ensures
        final(out)@ == old(out)@ + spec_render_fields(field_views(fs@), 0),
{
    let ghost fv = field_views(fs@);
    let ghost base = out@;
    let mut i: usize = 0;
    while i < fs.len()
        invariant
            i <= fs.len(),
            fv == field_views(fs@),
            out@ + spec_render_fields(fv, i as int) == base + spec_render_fields(fv, 0),
        decreases fs.len() - i,
    {
        let ghost pre = out@;
        if i > 0 {
            out.append(",");
        }
        push_field(out, &fs[i]);
        proof {
            assert(out@ + spec_render_fields(fv, i + 1) =~= pre + spec_render_fields(fv, i as int));
        }
        i = i + 1;
    }
    proof {
        assert(out@ =~= base + spec_render_fields(fv, 0));
    }
}

fn push_record(out: &mut String, r: &RecordSchema)
    ensures
        final(out)@ == old(out)@ + spec_render_record(r@),
{
    out.append("{\"record\":\"");
    out.append(r.name.as_str());
    out.append("\",\"fields\":[");
    push_fields(out, &r.fields);
    out.append("]}");
    proof {
        assert(out@ =~= old(out)@ + spec_render_record(r@));
    }
}

fn push_variant(out: &mut String, v: &VariantSchema)
    ensures
        final(out)@ == old(out)@ + spec_render_variant(v@),
{
    out.append("{\"tag\":\"");
    out.append(v.tag.as_str());
    out.append("\",\"payload\":");
    push_type(out, &v.payload);
    out.append("}");
    proof {
        assert(out@ =~= old(out)@ + spec_render_variant(v@));
    }
}

fn push_union(out: &mut String, u: &UnionSchema)
    ensures
        final(out)@ == old(out)@ + spec_render_union(u@),
{
    out.append("{\"union\":\"");
    out.append(u.name.as_str());
    out.append("\",\"tags\":[");
    let ghost tv = variant_views(u.tags@);
    let ghost base = out@;
    let mut i: usize = 0;
    while i < u.tags.len()
        invariant
            i <= u.tags.len(),
            tv == variant_views(u.tags@),
            out@ + spec_render_variants(tv, i as int) == base + spec_render_variants(tv, 0),
        decreases u.tags.len() - i,
    {
        let ghost pre = out@;
        if i > 0 {
            out.append(",");
        }
        push_variant(out, &u.tags[i]);
        proof {
            assert(out@ + spec_render_variants(tv, i + 1) =~= pre + spec_render_variants(
                tv,
                i as int,
            ));
        }
        i = i + 1;
    }
    out.append("]}");
    proof {
        assert(out@ =~= old(out)@ + spec_render_union(u@));
    }
}

fn push_token(out: &mut String, t: &TokenSchema)
    ensures
        final(out)@ == old(out)@ + spec_render_token(t@),
{
    out.append("{\"token\":\"");
    out.append(t.name.as_str());
    out.append("\",\"literals\":[");
    let ghost lv = t.literals.deep_view();
    let ghost base = out@;
    let mut i: usize = 0;
    while i < t.literals.len()
        invariant
            i <= t.literals.len(),
            lv == t.literals.deep_view(),
            out@ + spec_render_literals(lv, i as int) == base + spec_render_literals(lv, 0),
        decreases t.literals.len() - i,
    {
        let ghost pre = out@;
        if i > 0 {
            out.append(",");
        }
        out.append("\"");
        out.append(t.literals[i].as_str());
        out.append("\"");
        proof {
            assert(out@ + spec_render_literals(lv, i + 1) =~= pre + spec_render_literals(
                lv,
                i as int,
            ));
        }
        i = i + 1;
    }
    out.append("]}");
    proof {
        assert(out@ =~= old(out)@ + spec_render_token(t@));
    }
}

/// Render a schema descriptor as one line of self-describing text, for
/// external tooling. The output is pinned character by character, so
/// rendering the same descriptor twice gives byte-identical text.
pub fn render_schema(s: &Schema) -> (r: String)
    ensures
        r@ == spec_render_schema(s@),
{
    let mut out = String::new();
    out.append("{\"records\":[");
    let ghost rv = record_views(s.records@);
    let ghost base0 = out@;
    let mut i: usize = 0;
    while i < s.records.len()
        invariant
            i <= s.records.len(),
            rv == record_views(s.records@),
            out@ + spec_render_records(rv, i as int) == base0 + spec_render_records(rv, 0),
        decreases s.records.len() - i,
    {
        let ghost pre = out@;
        if i > 0 {
            out.append(",");
        }
        push_record(&mut out, &s.records[i]);
        proof {
            assert(out@ + spec_render_records(rv, i + 1) =~= pre + spec_render_records(
                rv,
                i as int,
            ));
        }
        i = i + 1;
    }
    out.append("],\"unions\":[");
    let ghost uv = union_views(s.unions@);
    let ghost base1 = out@;
    let mut j: usize = 0;
    while j < s.unions.len()
        invariant
            j <= s.unions.len(),
            uv == union_views(s.unions@),
            out@ + spec_render_unions(uv, j as int) == base1 + spec_render_unions(uv, 0),
        decreases s.unions.len() - j,
    {
        let ghost pre = out@;
        if j > 0 {
            out.append(",");
        }
        push_union(&mut out, &s.unions[j]);
        proof {
            assert(out@ + spec_render_unions(uv, j + 1) =~= pre + spec_render_unions(
                uv,
                j as int,
            ));
        }
        j = j + 1;
    }
    out.append("],\"tokens\":[");
    let ghost tv = token_views(s.tokens@);
    let ghost base2 = out@;
    let mut k: usize = 0;
    while k < s.tokens.len()
        invariant
            k <= s.tokens.len(),
            tv == token_views(s.tokens@),
            out@ + spec_render_tokens(tv, k as int) == base2 + spec_render_tokens(tv, 0),
        decreases s.tokens.len() - k,
    {
        let ghost pre = out@;
        if k > 0 {
            out.append(",");
        }
        push_token(&mut out, &s.tokens[k]);
        proof {
            assert(out@ + spec_render_tokens(tv, k + 1) =~= pre + spec_render_tokens(
                tv,
                k as int,
            ));
        }
        k = k + 1;
    }
    out.append("]}");
    proof {
        assert(out@ =~= spec_render_schema(s@));
    }
    out
}

/// Derive and render the model's schema for the given mode: the whole
/// artifact is a function of the mode alone, so two invocations return
/// byte-identical text, and no configuration document plays any part.
pub fn schema_text(mode: SchemaMode) -> (r: String)
    ensures
        r@ == spec_schema_text(mode),
{
    let s = describe_model(mode);
    render_schema(&s)
}

/// No two arms of the action-token descriptor share an external
/// spelling, and the union's two tags differ: the definitional
/// inconsistency the `SchemaDefinition` failure class names cannot
/// arise in this model — it is ruled out ahead of time, not detected at
/// run time.
pub proof fn lemma_schema_definition_consistent()
    ensures
        forall|i: int, j: int|
            0 <= i < j < spec_actions_token().literals.len()
                ==> spec_actions_token().literals[i] != spec_actions_token().literals[j],
        spec_source_union().tags[0].tag != spec_source_union().tags[1].tag,
{
    crate::actions::lemma_action_literal_facts();
    reveal_strlit("url");
    reveal_strlit("file");
    assert("file"@.len() == 4 && "url"@.len() == 3);
}

} // verus!
