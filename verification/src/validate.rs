use vstd::prelude::*;
use vstd::string::StringExecFns;
use crate::actions::{Actions, parse_action, spec_parse_action, str_eq};
use crate::doc::{fields_v, DocField, DocFieldV, DocV, DocValue};
use crate::error::{ConfigError, ErrV};
use crate::model::{AppDataV, ConfigV, Source, SourceV};

verus! {

/// Which of the two representational modes a document is decoded under:
/// the application-data fields nested under the `data` key, or flattened
/// into the top-level field set beside `name`, `version` and
/// `description`. The mode is a declared property of the schema version
/// in use, never guessed from the document.
#[derive(Clone, Copy, PartialEq, Eq, Structural, Debug)]
pub enum SchemaMode {
    Flattened,
    Nested,
}

// ---------------------------------------------------------------------
// Field names and paths
// ---------------------------------------------------------------------

/// The accepted spellings of the action tokens, in declaration order.
pub open spec fn spec_action_literal_set() -> Seq<Seq<char>> {
    seq!["foo"@, "bar"@, "baz"@, "foo_bar"@, "bar_baz"@, "fbb"@]
}

/// The accepted tags of the source union, in declaration order.
pub open spec fn spec_source_tag_set() -> Seq<Seq<char>> {
    seq!["file"@, "url"@]
}

/// The field names a top-level record may carry in the given mode.
pub open spec fn spec_allowed_top(mode: SchemaMode) -> Seq<Seq<char>> {
    match mode {
        SchemaMode::Flattened => seq![
            "name"@,
            "version"@,
            "description"@,
            "source"@,
            "target"@,
            "actions"@,
        ],
        SchemaMode::Nested => seq!["name"@, "version"@, "description"@, "data"@],
    }
}

/// The field names the nested `data` record may carry.
pub open spec fn spec_allowed_data() -> Seq<Seq<char>> {
    seq!["source"@, "target"@, "actions"@]
}

/// The error path of an application-data field: its own name in
/// flattened mode, prefixed by the `data` key in nested mode.
pub open spec fn spec_source_path(mode: SchemaMode) -> Seq<char> {
    if mode is Nested {
        "data.source"@
    } else {
        "source"@
    }
}

pub open spec fn spec_target_path(mode: SchemaMode) -> Seq<char> {
    if mode is Nested {
        "data.target"@
    } else {
        "target"@
    }
}

pub open spec fn spec_actions_path(mode: SchemaMode) -> Seq<char> {
    if mode is Nested {
        "data.actions"@
    } else {
        "actions"@
    }
}

// ---------------------------------------------------------------------
// Record field lookup and key checks
// ---------------------------------------------------------------------

/// The value of the first field named `k` at or after position `i`.
pub open spec fn spec_find_at(fs: Seq<DocFieldV>, k: Seq<char>, i: int) -> Option<DocV>
    decreases fs.len() - i,
{
    if i < 0 || i >= fs.len() {
        None
    } else if fs[i].key == k {
        Some(fs[i].value)
    } else {
        spec_find_at(fs, k, i + 1)
    }
}

/// The value of the first field named `k`, if any.
pub open spec fn spec_find(fs: Seq<DocFieldV>, k: Seq<char>) -> Option<DocV> {
    spec_find_at(fs, k, 0)
}

/// Whether some field before position `j` is named `k`.
pub open spec fn spec_key_before(fs: Seq<DocFieldV>, k: Seq<char>, j: int) -> bool {
    exists|i: int| 0 <= i < j && fs[i].key == k
}

/// The name of the first field, at or after position `j`, that repeats
/// the name of an earlier field.
pub open spec fn spec_first_dup_at(fs: Seq<DocFieldV>, j: int) -> Option<Seq<char>>
    decreases fs.len() - j,
{
    if j < 0 || j >= fs.len() {
        None
    } else if spec_key_before(fs, fs[j].key, j) {
        Some(fs[j].key)
    } else {
        spec_first_dup_at(fs, j + 1)
    }
}

/// The name of the first field that repeats an earlier field's name.
pub open spec fn spec_first_dup(fs: Seq<DocFieldV>) -> Option<Seq<char>> {
    spec_first_dup_at(fs, 0)
}

/// Whether `k` is one of the names in `allowed`.
pub open spec fn spec_in_set(k: Seq<char>, allowed: Seq<Seq<char>>) -> bool {
    exists|i: int| 0 <= i < allowed.len() && allowed[i] == k
}

/// The name of the first field, at or after position `j`, outside the
/// allowed set.
pub open spec fn spec_first_unknown_at(
    fs: Seq<DocFieldV>,
    allowed: Seq<Seq<char>>,
    j: int,
) -> Option<Seq<char>>
    decreases fs.len() - j,
{
    if j < 0 || j >= fs.len() {
        None
    } else if !spec_in_set(fs[j].key, allowed) {
        Some(fs[j].key)
    } else {
        spec_first_unknown_at(fs, allowed, j + 1)
    }
}

/// The name of the first field outside the allowed set.
pub open spec fn spec_first_unknown(fs: Seq<DocFieldV>, allowed: Seq<Seq<char>>) -> Option<
    Seq<char>,
> {
    spec_first_unknown_at(fs, allowed, 0)
}

// ---------------------------------------------------------------------
// Decoding, at the level of abstract document values
// ---------------------------------------------------------------------

/// Decode the source union from the entries of its record: exactly one
/// recognizable tag must be present, and its payload must be text. The
/// payload itself is taken verbatim.
pub open spec fn spec_decode_source(fs: Seq<DocFieldV>, mode: SchemaMode) -> Result<
    SourceV,
    ErrV,
> {
    if fs.len() == 0 {
        Err(ErrV::MissingTag { path: spec_source_path(mode), accepted: spec_source_tag_set() })
    } else if fs.len() > 1 {
        Err(ErrV::MultipleTags { path: spec_source_path(mode) })
    } else if fs[0].key == "file"@ {
        match fs[0].value {
            DocV::Text(p) => Ok(SourceV::File(p)),
            _ => Err(ErrV::WrongType { path: spec_source_path(mode) }),
        }
    } else if fs[0].key == "url"@ {
        match fs[0].value {
            DocV::Text(u) => Ok(SourceV::Url(u)),
            _ => Err(ErrV::WrongType { path: spec_source_path(mode) }),
        }
    } else {
        Err(ErrV::UnknownTag {
            path: spec_source_path(mode),
            tag: fs[0].key,
            accepted: spec_source_tag_set(),
        })
    }
}

/// Decode the elements of the `actions` list from position `i` on. Every
/// element must be text carrying an accepted spelling; order and
/// duplicates are preserved verbatim.
pub open spec fn spec_decode_actions_at(items: Seq<DocV>, mode: SchemaMode, i: int) -> Result<
    Seq<Actions>,
    ErrV,
>
    decreases items.len() - i,
{
    if i < 0 || i >= items.len() {
        Ok(Seq::empty())
    } else {
        match items[i] {
            DocV::Text(s) => match spec_parse_action(s) {
                Some(a) => match spec_decode_actions_at(items, mode, i + 1) {
                    Ok(rest) => Ok(seq![a] + rest),
                    Err(e) => Err(e),
                },
                None => Err(ErrV::UnknownLiteral {
                    path: spec_actions_path(mode),
                    index: i,
                    literal: s,
                    accepted: spec_action_literal_set(),
                }),
            },
            _ => Err(ErrV::WrongType { path: spec_actions_path(mode) }),
        }
    }
}

/// Decode the whole `actions` list.
pub open spec fn spec_decode_actions(items: Seq<DocV>, mode: SchemaMode) -> Result<
    Seq<Actions>,
    ErrV,
> {
    spec_decode_actions_at(items, mode, 0)
}

/// Decode the application-data block from the record entries that carry
/// its fields: the top-level entries in flattened mode, the entries of
/// the `data` record in nested mode. The same rules apply either way;
/// only the error paths differ.
pub open spec fn spec_decode_appdata(fs: Seq<DocFieldV>, mode: SchemaMode) -> Result<
    AppDataV,
    ErrV,
> {
    match spec_find(fs, "source"@) {
        None => Err(ErrV::MissingField { path: spec_source_path(mode) }),
        Some(sv) => match sv {
            DocV::Record(sfs) => match spec_decode_source(sfs, mode) {
                Err(e) => Err(e),
                Ok(source) => match spec_find(fs, "target"@) {
                    None => Err(ErrV::MissingField { path: spec_target_path(mode) }),
                    Some(tv) => match tv {
                        DocV::Text(target) => match spec_find(fs, "actions"@) {
                            None => Err(ErrV::MissingField { path: spec_actions_path(mode) }),
                            Some(av) => match av {
                                DocV::List(items) => match spec_decode_actions(items, mode) {
                                    Err(e) => Err(e),
                                    Ok(actions) => Ok(AppDataV { source, target, actions }),
                                },
                                _ => Err(ErrV::WrongType { path: spec_actions_path(mode) }),
                            },
                        },
                        _ => Err(ErrV::WrongType { path: spec_target_path(mode) }),
                    },
                },
            },
            _ => Err(ErrV::WrongType { path: spec_source_path(mode) }),
        },
    }
}

/// Decode the three document-own fields and hand back the entries that
/// carry the application data. The document must be a record with no
/// repeated and no unknown field name; `name` and `version` must be
/// present as text; `description` is optional, and absent means "not
/// provided" — never an empty-string stand-in.
pub open spec fn spec_validate(d: DocV, mode: SchemaMode) -> Result<ConfigV<Seq<char>>, ErrV> {
    match d {
        DocV::Record(fs) => match spec_first_dup(fs) {
            Some(k) => Err(ErrV::DuplicateField { path: k }),
            None => match spec_first_unknown(fs, spec_allowed_top(mode)) {
                Some(k) => Err(ErrV::UnknownField { path: k }),
                None => match spec_find(fs, "name"@) {
                    None => Err(ErrV::MissingField { path: "name"@ }),
                    Some(nv) => match nv {
                        DocV::Text(name) => match spec_find(fs, "version"@) {
                            None => Err(ErrV::MissingField { path: "version"@ }),
                            Some(vv) => match vv {
                                DocV::Text(version) => match spec_description(fs) {
                                    Err(e) => Err(e),
                                    Ok(description) => match spec_appdata_entries(fs, mode) {
                                        Err(e) => Err(e),
                                        Ok(dfs) => match spec_decode_appdata(dfs, mode) {
                                            Err(e) => Err(e),
                                            Ok(data) => Ok(ConfigV {
                                                name,
                                                version,
                                                description,
                                                data,
                                            }),
                                        },
                                    },
                                },
                                _ => Err(ErrV::WrongType { path: "version"@ }),
                            },
                        },
                        _ => Err(ErrV::WrongType { path: "name"@ }),
                    },
                },
            },
        },
        _ => Err(ErrV::WrongType { path: ""@ }),
    }
}

/// The optional `description` field: absent is `None`, text is kept,
/// anything else is a wrong type.
pub open spec fn spec_description(fs: Seq<DocFieldV>) -> Result<Option<Seq<char>>, ErrV> {
    match spec_find(fs, "description"@) {
        None => Ok(None),
        Some(dv) => match dv {
            DocV::Text(d) => Ok(Some(d)),
            _ => Err(ErrV::WrongType { path: "description"@ }),
        },
    }
}

/// The record entries the application data is decoded from: the
/// document's own entries in flattened mode; in nested mode the entries
/// of the required `data` record, which must itself carry no repeated
/// field name.
pub open spec fn spec_appdata_entries(fs: Seq<DocFieldV>, mode: SchemaMode) -> Result<
    Seq<DocFieldV>,
    ErrV,
> {
    match mode {
        SchemaMode::Flattened => Ok(fs),
        SchemaMode::Nested => match spec_find(fs, "data"@) {
            None => Err(ErrV::MissingField { path: "data"@ }),
            Some(dv) => match dv {
                DocV::Record(dfs) => match spec_first_dup(dfs) {
                    Some(k) => Err(ErrV::DuplicateField { path: "data."@ + k }),
                    None => match spec_first_unknown(dfs, spec_allowed_data()) {
                        Some(k) => Err(ErrV::UnknownField { path: "data."@ + k }),
                        None => Ok(dfs),
                    },
                },
                _ => Err(ErrV::WrongType { path: "data"@ }),
            },
        },
    }
}

// ---------------------------------------------------------------------
// Executable helpers
// ---------------------------------------------------------------------

/// The error path of the source field in the given mode.
fn source_path_str(mode: SchemaMode) -> (r: &'static str)
    ensures
        r@ == spec_source_path(mode),
{
    match mode {
        SchemaMode::Nested => "data.source",
        SchemaMode::Flattened => "source",
    }
}

/// The error path of the target field in the given mode.
fn target_path_str(mode: SchemaMode) -> (r: &'static str)
    ensures
        r@ == spec_target_path(mode),
{
    match mode {
        SchemaMode::Nested => "data.target",
        SchemaMode::Flattened => "target",
    }
}

/// The error path of the actions field in the given mode.
fn actions_path_str(mode: SchemaMode) -> (r: &'static str)
    ensures
        r@ == spec_actions_path(mode),
{
    match mode {
        SchemaMode::Nested => "data.actions",
        SchemaMode::Flattened => "actions",
    }
}

/// The accepted source tags, for error reports.
fn source_tag_vec() -> (r: Vec<String>)
    ensures
        r.deep_view() == spec_source_tag_set(),
{
    let mut v: Vec<String> = Vec::new();
    v.push("file".to_owned());
    v.push("url".to_owned());
    proof {
        assert(v.deep_view() =~= spec_source_tag_set());
    }
    v
}

/// The accepted action spellings, in declaration order: for error
/// reports and for the schema descriptor.
pub fn action_literal_set() -> (r: Vec<String>)
    ensures
        r.deep_view() == spec_action_literal_set(),
{
    let mut v: Vec<String> = Vec::new();
    v.push("foo".to_owned());
    v.push("bar".to_owned());
    v.push("baz".to_owned());
    v.push("foo_bar".to_owned());
    v.push("bar_baz".to_owned());
    v.push("fbb".to_owned());
    proof {
        assert(v.deep_view() =~= spec_action_literal_set());
    }
    v
}

/// Whether `k` is a top-level field name of the given mode.
fn top_key_known(k: &str, mode: SchemaMode) -> (r: bool)
    ensures
        r == spec_in_set(k@, spec_allowed_top(mode)),
{
    let r = match mode {
        SchemaMode::Flattened => str_eq(k, "name") || str_eq(k, "version") || str_eq(
            k,
            "description",
        ) || str_eq(k, "source") || str_eq(k, "target") || str_eq(k, "actions"),
        SchemaMode::Nested => str_eq(k, "name") || str_eq(k, "version") || str_eq(k, "description")
            || str_eq(k, "data"),
    };
    proof {
        let allowed = spec_allowed_top(mode);
        if r {
            assert(spec_in_set(k@, allowed)) by {
                if k@ == "name"@ {
                    assert(allowed[0] == k@);
                } else if k@ == "version"@ {
                    assert(allowed[1] == k@);
                } else if k@ == "description"@ {
                    assert(allowed[2] == k@);
                } else if mode is Flattened && k@ == "source"@ {
                    assert(allowed[3] == k@);
                } else if mode is Flattened && k@ == "target"@ {
                    assert(allowed[4] == k@);
                } else if mode is Flattened && k@ == "actions"@ {
                    assert(allowed[5] == k@);
                } else {
                    assert(allowed[3] == k@);
                }
            }
        } else {
            assert(!spec_in_set(k@, allowed)) by {
                assert forall|i: int| 0 <= i < allowed.len() implies allowed[i] != k@ by {}
            }
        }
    }
    r
}

/// Whether `k` is a field name of the nested data record.
fn data_key_known(k: &str) -> (r: bool)
    ensures
        r == spec_in_set(k@, spec_allowed_data()),
{
    let r = str_eq(k, "source") || str_eq(k, "target") || str_eq(k, "actions");
    proof {
        let allowed = spec_allowed_data();
        if r {
            assert(spec_in_set(k@, allowed)) by {
                if k@ == "source"@ {
                    assert(allowed[0] == k@);
                } else if k@ == "target"@ {
                    assert(allowed[1] == k@);
                } else {
                    assert(allowed[2] == k@);
                }
            }
        } else {
            assert forall|i: int| 0 <= i < allowed.len() implies allowed[i] != k@ by {}
        }
    }
    r
}

/// The value of the first field named `k`, if any.
fn find_field<'a>(fields: &'a Vec<DocField>, k: &str) -> (r: Option<&'a DocValue>)
    ensures
        match r {
            Some(v) => spec_find(fields_v(fields@), k@) == Some(v@),
            None => spec_find(fields_v(fields@), k@) is None,
        },
{
    let ghost fv = fields_v(fields@);
    let mut i: usize = 0;
    while i < fields.len()
        invariant
            i <= fields.len(),
            fv == fields_v(fields@),
            spec_find_at(fv, k@, 0) == spec_find_at(fv, k@, i as int),
        decreases fields.len() - i,
    {
        if str_eq(fields[i].key.as_str(), k) {
            return Some(&fields[i].value);
        }
        i = i + 1;
    }
    None
}

/// The name of the first field that repeats an earlier field's name.
fn first_dup(fields: &Vec<DocField>) -> (r: Option<String>)
    ensures
        match r {
            Some(k) => spec_first_dup(fields_v(fields@)) == Some(k@),
            None => spec_first_dup(fields_v(fields@)) is None,
        },
{
    let ghost fv = fields_v(fields@);
    let mut j: usize = 0;
    while j < fields.len()
        invariant
            j <= fields.len(),
            fv == fields_v(fields@),
            spec_first_dup_at(fv, 0) == spec_first_dup_at(fv, j as int),
        decreases fields.len() - j,
    {
        let mut i: usize = 0;
        while i < j
            invariant
                i <= j,
                j < fields.len(),
                fv == fields_v(fields@),
                spec_first_dup_at(fv, 0) == spec_first_dup_at(fv, j as int),
                !spec_key_before(fv, fv[j as int].key, i as int),
            decreases j - i,
        {
            if str_eq(fields[i].key.as_str(), fields[j].key.as_str()) {
                proof {
                    assert(fv[i as int].key == fv[j as int].key);
                    assert(spec_key_before(fv, fv[j as int].key, j as int));
                }
                return Some(fields[j].key.clone());
            }
            i = i + 1;
        }
        j = j + 1;
    }
    None
}

/// The name of the first top-level field outside the mode's field set.
fn first_unknown_top(fields: &Vec<DocField>, mode: SchemaMode) -> (r: Option<String>)
    ensures
        match r {
            Some(k) => spec_first_unknown(fields_v(fields@), spec_allowed_top(mode)) == Some(k@),
            None => spec_first_unknown(fields_v(fields@), spec_allowed_top(mode)) is None,
        },
{
    let ghost fv = fields_v(fields@);
    let mut j: usize = 0;
    while j < fields.len()
        invariant
            j <= fields.len(),
            fv == fields_v(fields@),
            spec_first_unknown_at(fv, spec_allowed_top(mode), 0) == spec_first_unknown_at(
                fv,
                spec_allowed_top(mode),
                j as int,
            ),
        decreases fields.len() - j,
    {
        if !top_key_known(fields[j].key.as_str(), mode) {
            return Some(fields[j].key.clone());
        }
        j = j + 1;
    }
    None
}

/// The name of the first data-record field outside the block's field set.
fn first_unknown_data(fields: &Vec<DocField>) -> (r: Option<String>)
    ensures
        match r {
            Some(k) => spec_first_unknown(fields_v(fields@), spec_allowed_data()) == Some(k@),
            None => spec_first_unknown(fields_v(fields@), spec_allowed_data()) is None,
        },
{
    let ghost fv = fields_v(fields@);
    let mut j: usize = 0;
    while j < fields.len()
        invariant
            j <= fields.len(),
            fv == fields_v(fields@),
            spec_first_unknown_at(fv, spec_allowed_data(), 0) == spec_first_unknown_at(
                fv,
                spec_allowed_data(),
                j as int,
            ),
        decreases fields.len() - j,
    {
        if !data_key_known(fields[j].key.as_str()) {
            return Some(fields[j].key.clone());
        }
        j = j + 1;
    }
    None
}

/// Decode the source union from its record's fields.
fn decode_source(fields: &Vec<DocField>, mode: SchemaMode) -> (r: Result<Source, ConfigError>)
    ensures
        match r {
            Ok(s) => spec_decode_source(fields_v(fields@), mode) == Ok::<SourceV, ErrV>(s@),
            Err(e) => spec_decode_source(fields_v(fields@), mode) == Err::<SourceV, ErrV>(e@),
        },
{
    if fields.len() == 0 {
        return Err(
            ConfigError::MissingTag {
                path: source_path_str(mode).to_owned(),
                accepted: source_tag_vec(),
            },
        );
    }
    if fields.len() > 1 {
        return Err(ConfigError::MultipleTags { path: source_path_str(mode).to_owned() });
    }
    let f = &fields[0];
    if str_eq(f.key.as_str(), "file") {
        match &f.value {
            DocValue::Text(p) => Ok(Source::File(p.clone())),
            _ => Err(ConfigError::WrongType { path: source_path_str(mode).to_owned() }),
        }
    } else if str_eq(f.key.as_str(), "url") {
        match &f.value {
            DocValue::Text(u) => Ok(Source::Url(u.clone())),
            _ => Err(ConfigError::WrongType { path: source_path_str(mode).to_owned() }),
        }
    } else {
        Err(
            ConfigError::UnknownTag {
                path: source_path_str(mode).to_owned(),
                tag: f.key.clone(),
                accepted: source_tag_vec(),
            },
        )
    }
}

/// Decode the `actions` list, preserving order and duplicates verbatim.
fn decode_actions(items: &Vec<DocValue>, mode: SchemaMode) -> (r: Result<Vec<Actions>, ConfigError>)
    ensures
        match r {
            Ok(v) => spec_decode_actions(crate::doc::items_v(items@), mode) == Ok::<
                Seq<Actions>,
                ErrV,
            >(v@),
            Err(e) => spec_decode_actions(crate::doc::items_v(items@), mode) == Err::<
                Seq<Actions>,
                ErrV,
            >(e@),
        },
{
    let ghost iv = crate::doc::items_v(items@);
    let mut out: Vec<Actions> = Vec::new();
    let mut i: usize = 0;
    proof {
        assert(match spec_decode_actions_at(iv, mode, 0) {
            Ok(rest) => Ok::<Seq<Actions>, ErrV>(out@ + rest) == Ok::<Seq<Actions>, ErrV>(rest),
            Err(_) => true,
        }) by {
            if spec_decode_actions_at(iv, mode, 0) is Ok {
                assert(out@ + spec_decode_actions_at(iv, mode, 0)->Ok_0 =~= spec_decode_actions_at(
                    iv,
                    mode,
                    0,
                )->Ok_0);
            }
        }
    }
    while i < items.len()
        invariant
            i <= items.len(),
            iv == crate::doc::items_v(items@),
            spec_decode_actions_at(iv, mode, 0) == (match spec_decode_actions_at(
                iv,
                mode,
                i as int,
            ) {
                Ok(rest) => Ok::<Seq<Actions>, ErrV>(out@ + rest),
                Err(e) => Err::<Seq<Actions>, ErrV>(e),
            }),
        decreases items.len() - i,
    {
        let ghost old_out = out@;
        match &items[i] {
            DocValue::Text(s) => match parse_action(s.as_str()) {
                Some(a) => {
                    out.push(a);
                    proof {
                        let next = spec_decode_actions_at(iv, mode, i + 1);
                        if next is Ok {
                            assert(old_out + (seq![a] + next->Ok_0) =~= out@ + next->Ok_0);
                        }
                    }
                },
                None => {
                    return Err(
                        ConfigError::UnknownLiteral {
                            path: actions_path_str(mode).to_owned(),
                            index: i,
                            literal: s.clone(),
                            accepted: action_literal_set(),
                        },
                    );
                },
            },
            _ => {
                return Err(ConfigError::WrongType { path: actions_path_str(mode).to_owned() });
            },
        }
        i = i + 1;
    }
    proof {
        assert(out@ + Seq::<Actions>::empty() =~= out@);
    }
    Ok(out)
}

/// Decode the application-data block from the record fields that carry
/// it.
fn decode_appdata(fields: &Vec<DocField>, mode: SchemaMode) -> (r: Result<
    crate::model::AppData,
    ConfigError,
>)
    ensures
        match r {
            Ok(d) => spec_decode_appdata(fields_v(fields@), mode) == Ok::<AppDataV, ErrV>(d@),
            Err(e) => spec_decode_appdata(fields_v(fields@), mode) == Err::<AppDataV, ErrV>(e@),
        },
{
    let source: Source = match find_field(fields, "source") {
        None => {
            return Err(ConfigError::MissingField { path: source_path_str(mode).to_owned() });
        },
        Some(sv) => match sv {
            DocValue::Record(sfs) => {
                proof {
                    crate::doc::lemma_doc_view_parts(*sv);
                }
                match decode_source(sfs, mode) {
                    Ok(s) => s,
                    Err(e) => {
                        return Err(e);
                    },
                }
            },
            _ => {
                return Err(ConfigError::WrongType { path: source_path_str(mode).to_owned() });
            },
        },
    };
    let target: crate::model::Target = match find_field(fields, "target") {
        None => {
            return Err(ConfigError::MissingField { path: target_path_str(mode).to_owned() });
        },
        Some(tv) => match tv {
            DocValue::Text(t) => crate::model::Target { path: t.clone() },
            _ => {
                return Err(ConfigError::WrongType { path: target_path_str(mode).to_owned() });
            },
        },
    };
    let actions: Vec<Actions> = match find_field(fields, "actions") {
        None => {
            return Err(ConfigError::MissingField { path: actions_path_str(mode).to_owned() });
        },
        Some(av) => match av {
            DocValue::List(items) => {
                proof {
                    crate::doc::lemma_doc_view_parts(*av);
                }
                match decode_actions(items, mode) {
                    Ok(a) => a,
                    Err(e) => {
                        return Err(e);
                    },
                }
            },
            _ => {
                return Err(ConfigError::WrongType { path: actions_path_str(mode).to_owned() });
            },
        },
    };
    Ok(crate::model::AppData { source, target, actions })
}

/// The first, structure-checking validation phase: decode an untyped
/// document into a configuration whose version is still raw text. The
/// result is pinned field by field by [`spec_validate`]; in particular a
/// missing `name` is reported as exactly that, an absent `description`
/// stays absent, and the action sequence keeps order and duplicates.
pub fn validate_document(doc: &DocValue, mode: SchemaMode) -> (r: Result<
    crate::model::Config<String>,
    ConfigError,
>)
    ensures
        match r {
            Ok(c) => spec_validate(doc@, mode) == Ok::<ConfigV<Seq<char>>, ErrV>(c@),
            Err(e) => spec_validate(doc@, mode) == Err::<ConfigV<Seq<char>>, ErrV>(e@),
        },
{
    proof {
        crate::doc::lemma_doc_view_parts(*doc);
    }
    let fields: &Vec<DocField> = match doc {
        DocValue::Record(fields) => fields,
        _ => {
            return Err(ConfigError::WrongType { path: "".to_owned() });
        },
    };
    if let Some(k) = first_dup(fields) {
        return Err(ConfigError::DuplicateField { path: k });
    }
    if let Some(k) = first_unknown_top(fields, mode) {
        return Err(ConfigError::UnknownField { path: k });
    }
    let name: String = match find_field(fields, "name") {
        None => {
            return Err(ConfigError::MissingField { path: "name".to_owned() });
        },
        Some(nv) => match nv {
            DocValue::Text(n) => n.clone(),
            _ => {
                return Err(ConfigError::WrongType { path: "name".to_owned() });
            },
        },
    };
    let version: String = match find_field(fields, "version") {
        None => {
            return Err(ConfigError::MissingField { path: "version".to_owned() });
        },
        Some(vv) => match vv {
            DocValue::Text(v) => v.clone(),
            _ => {
                return Err(ConfigError::WrongType { path: "version".to_owned() });
            },
        },
    };
    let description: Option<String> = match find_field(fields, "description") {
        None => None,
        Some(dv) => match dv {
            DocValue::Text(d) => Some(d.clone()),
            _ => {
                return Err(ConfigError::WrongType { path: "description".to_owned() });
            },
        },
    };
    let data_fields: &Vec<DocField> = match mode {
        SchemaMode::Flattened => fields,
        SchemaMode::Nested => match find_field(fields, "data") {
            None => {
                return Err(ConfigError::MissingField { path: "data".to_owned() });
            },
            Some(dv) => match dv {
                DocValue::Record(dfs) => {
                    proof {
                        crate::doc::lemma_doc_view_parts(*dv);
                    }
                    if let Some(k) = first_dup(dfs) {
                        return Err(
                            ConfigError::DuplicateField {
                                path: String::from_str("data.").concat(k.as_str()),
                            },
                        );
                    }
                    if let Some(k) = first_unknown_data(dfs) {
                        return Err(
                            ConfigError::UnknownField {
                                path: String::from_str("data.").concat(k.as_str()),
                            },
                        );
                    }
                    dfs
                },
                _ => {
                    return Err(ConfigError::WrongType { path: "data".to_owned() });
                },
            },
        },
    };
    let data = match decode_appdata(data_fields, mode) {
        Ok(d) => d,
        Err(e) => {
            return Err(e);
        },
    };
    Ok(crate::model::Config { name, version, description, data })
}

/// The eager lifecycle: structure-checking decode and version
/// normalization in one step, failing the whole load on either class of
/// error.
pub fn load_document(doc: &DocValue, mode: SchemaMode) -> (r: Result<
    crate::model::Config<crate::version::Version>,
    ConfigError,
>)
    ensures
        match r {
            Ok(c) => spec_load(doc@, mode) == Ok::<ConfigV<crate::version::VersionV>, ErrV>(c@),
            Err(e) => spec_load(doc@, mode) == Err::<ConfigV<crate::version::VersionV>, ErrV>(e@),
        },
{
    match validate_document(doc, mode) {
        Ok(raw) => raw.parse(),
        Err(e) => Err(e),
    }
}

/// Decode followed by normalization, as one function of the document.
pub open spec fn spec_load(d: DocV, mode: SchemaMode) -> Result<
    ConfigV<crate::version::VersionV>,
    ErrV,
> {
    match spec_validate(d, mode) {
        Ok(c) => crate::model::spec_normalize(c),
        Err(e) => Err(e),
    }
}

// ---------------------------------------------------------------------
// Encoding: from the model back to an untyped document
// ---------------------------------------------------------------------

/// The encoded `actions` list: each token's external spelling, in order.
pub open spec fn spec_encode_actions(acts: Seq<Actions>) -> Seq<DocV> {
    Seq::new(acts.len(), |i: int| DocV::Text(crate::actions::spec_action_literal(acts[i])))
}

/// The encoded source union: a record with the one selected tag.
pub open spec fn spec_encode_source(s: SourceV) -> DocV {
    match s {
        SourceV::File(p) => DocV::Record(seq![DocFieldV { key: "file"@, value: DocV::Text(p) }]),
        SourceV::Url(u) => DocV::Record(seq![DocFieldV { key: "url"@, value: DocV::Text(u) }]),
    }
}

/// The encoded application-data fields, in declaration order.
pub open spec fn spec_appdata_fields(d: AppDataV) -> Seq<DocFieldV> {
    seq![
        DocFieldV { key: "source"@, value: spec_encode_source(d.source) },
        DocFieldV { key: "target"@, value: DocV::Text(d.target) },
        DocFieldV { key: "actions"@, value: DocV::List(spec_encode_actions(d.actions)) },
    ]
}

/// The document's own encoded fields; an absent description stays
/// absent.
pub open spec fn spec_top_fields(c: ConfigV<Seq<char>>) -> Seq<DocFieldV> {
    seq![
        DocFieldV { key: "name"@, value: DocV::Text(c.name) },
        DocFieldV { key: "version"@, value: DocV::Text(c.version) },
    ] + (match c.description {
        Some(d) => seq![DocFieldV { key: "description"@, value: DocV::Text(d) }],
        None => Seq::empty(),
    })
}

/// Re-serialize a configuration to an untyped document in the given
/// mode.
pub open spec fn spec_encode(c: ConfigV<Seq<char>>, mode: SchemaMode) -> DocV {
    match mode {
        SchemaMode::Flattened => DocV::Record(spec_top_fields(c) + spec_appdata_fields(c.data)),
        SchemaMode::Nested => DocV::Record(
            spec_top_fields(c) + seq![
                DocFieldV { key: "data"@, value: DocV::Record(spec_appdata_fields(c.data)) },
            ],
        ),
    }
}

/// A normalized configuration, seen with its version as the raw text it
/// was parsed from.
pub open spec fn spec_strip(c: ConfigV<crate::version::VersionV>) -> ConfigV<Seq<char>> {
    ConfigV { name: c.name, version: c.version.text, description: c.description, data: c.data }
}

/// Encode the `actions` list.
fn encode_actions(acts: &Vec<Actions>) -> (r: DocValue)
    ensures
        r@ == DocV::List(spec_encode_actions(acts@)),
{
    let mut items: Vec<DocValue> = Vec::new();
    let mut i: usize = 0;
    while i < acts.len()
        invariant
            i <= acts.len(),
            items@.len() == i,
            forall|k: int|
                0 <= k < i ==> crate::doc::doc_view(#[trigger] items@[k]) == DocV::Text(
                    crate::actions::spec_action_literal(acts@[k]),
                ),
        decreases acts.len() - i,
    {
        items.push(DocValue::Text(crate::actions::action_literal(acts[i]).to_owned()));
        i = i + 1;
    }
    let d = DocValue::List(items);
    proof {
        crate::doc::lemma_doc_view_parts(d);
        assert(d@->List_0 =~= spec_encode_actions(acts@));
    }
    d
}

/// Encode the source union.
fn encode_source(s: &Source) -> (r: DocValue)
    ensures
        r@ == spec_encode_source(s@),
{
    let mut fs: Vec<DocField> = Vec::new();
    match s {
        Source::File(p) => fs.push(
            DocField { key: "file".to_owned(), value: DocValue::Text(p.clone()) },
        ),
        Source::Url(u) => fs.push(
            DocField { key: "url".to_owned(), value: DocValue::Text(u.clone()) },
        ),
    }
    let d = DocValue::Record(fs);
    proof {
        crate::doc::lemma_doc_view_parts(d);
        assert(d@->Record_0 =~= spec_encode_source(s@)->Record_0);
    }
    d
}

/// Encode the application-data fields.
fn encode_appdata_fields(data: &crate::model::AppData) -> (r: Vec<DocField>)
    ensures
        fields_v(r@) == spec_appdata_fields(data@),
{
    let mut fs: Vec<DocField> = Vec::new();
    fs.push(DocField { key: "source".to_owned(), value: encode_source(&data.source) });
    fs.push(DocField { key: "target".to_owned(), value: DocValue::Text(data.target.path.clone()) });
    fs.push(DocField { key: "actions".to_owned(), value: encode_actions(&data.actions) });
    proof {
        assert(fields_v(fs@) =~= spec_appdata_fields(data@));
    }
    fs
}

/// Encode a configuration from its parts.
fn encode_parts(
    name: &String,
    version: &str,
    description: &Option<String>,
    data: &crate::model::AppData,
    mode: SchemaMode,
) -> (r: DocValue)
    ensures
        r@ == spec_encode(
            ConfigV {
                name: name@,
                version: version@,
                description: match description {
                    Some(d) => Some(d@),
                    None => None,
                },
                data: data@,
            },
            mode,
        ),
{
    let ghost cv = ConfigV {
        name: name@,
        version: version@,
        description: match description {
            Some(d) => Some(d@),
            None => None,
        },
        data: data@,
    };
    let mut fs: Vec<DocField> = Vec::new();
    fs.push(DocField { key: "name".to_owned(), value: DocValue::Text(name.clone()) });
    fs.push(DocField { key: "version".to_owned(), value: DocValue::Text(version.to_owned()) });
    match description {
        Some(d) => fs.push(
            DocField { key: "description".to_owned(), value: DocValue::Text(d.clone()) },
        ),
        None => {},
    }
    proof {
        assert(fields_v(fs@) =~= spec_top_fields(cv));
    }
    let ghost top = fs@;
    match mode {
        SchemaMode::Flattened => {
            let mut app = encode_appdata_fields(data);
            let ghost appv = app@;
            fs.append(&mut app);
            proof {
                assert(fields_v(fs@) =~= fields_v(top) + fields_v(appv)) by {
                    assert(fs@ == top + appv);
                }
            }
        },
        SchemaMode::Nested => {
            let inner = encode_appdata_fields(data);
            let ghost innerv = inner@;
            let block = DocValue::Record(inner);
            proof {
                crate::doc::lemma_doc_view_parts(block);
            }
            fs.push(DocField { key: "data".to_owned(), value: block });
            proof {
                assert(fields_v(fs@) =~= fields_v(top) + seq![
                    DocFieldV {
                        key: "data"@,
                        value: DocV::Record(spec_appdata_fields(data@)),
                    },
                ]);
            }
        },
    }
    let d = DocValue::Record(fs);
    proof {
        crate::doc::lemma_doc_view_parts(d);
        assert(d@->Record_0 =~= spec_encode(cv, mode)->Record_0);
    }
    d
}

/// Re-serialize a raw-version configuration in the given mode. The
/// result decodes back to the same configuration.
pub fn encode_document(c: &crate::model::Config<String>, mode: SchemaMode) -> (r: DocValue)
    ensures
        r@ == spec_encode(c@, mode),
{
    encode_parts(&c.name, c.version.as_str(), &c.description, &c.data, mode)
}

/// Re-serialize a normalized configuration in the given mode: the
/// version is written as the exact text it was parsed from, so the
/// result re-validates and re-normalizes to the same configuration.
pub fn encode_normalized(
    c: &crate::model::Config<crate::version::Version>,
    mode: SchemaMode,
) -> (r: DocValue)
    ensures
        r@ == spec_encode(spec_strip(c@), mode),
{
    encode_parts(&c.name, c.version.text(), &c.description, &c.data, mode)
}

} // verus!
