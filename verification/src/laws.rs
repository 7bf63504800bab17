use vstd::prelude::*;
use crate::actions::{spec_action_literal, Actions};
use crate::error::ErrV;
use crate::actions::spec_parse_action;
use crate::doc::{DocFieldV, DocV};
use crate::model::{spec_normalize, ConfigV};
use crate::validate::{
    spec_allowed_data, spec_allowed_top, spec_decode_actions, spec_decode_actions_at,
    spec_decode_source, spec_encode, spec_encode_actions, spec_find, spec_find_at,
    spec_first_dup, spec_first_dup_at, spec_first_unknown, spec_first_unknown_at, spec_in_set,
    spec_load, spec_strip, spec_validate, SchemaMode,
};
use crate::version::VersionV;

verus! {

/// Concrete lengths and first characters of the model's field names and
/// tags, enough to tell any two of them apart.
proof fn lemma_key_facts()
    ensures
        "name"@.len() == 4 && "version"@.len() == 7 && "description"@.len() == 11,
        "source"@.len() == 6 && "target"@.len() == 6 && "actions"@.len() == 7,
        "data"@.len() == 4 && "file"@.len() == 4 && "url"@.len() == 3,
        "name"@[0] == 'n' && "version"@[0] == 'v' && "description"@[0] == 'd',
        "source"@[0] == 's' && "target"@[0] == 't' && "actions"@[0] == 'a',
        "data"@[0] == 'd' && "file"@[0] == 'f' && "url"@[0] == 'u',
{
    reveal_strlit("name");
    reveal_strlit("version");
    reveal_strlit("description");
    reveal_strlit("source");
    reveal_strlit("target");
    reveal_strlit("actions");
    reveal_strlit("data");
    reveal_strlit("file");
    reveal_strlit("url");
}

/// Decoding an encoded action list gives back the tokens from position
/// `i` on, order and duplicates intact.
proof fn lemma_actions_decode(acts: Seq<Actions>, mode: SchemaMode, i: int)
    requires
        0 <= i <= acts.len(),
    ensures
        spec_decode_actions_at(spec_encode_actions(acts), mode, i) == Ok::<Seq<Actions>, ErrV>(
            acts.skip(i),
        ),
    decreases acts.len() - i,
{
    let enc = spec_encode_actions(acts);
    if i == acts.len() {
        assert(acts.skip(i) =~= Seq::<Actions>::empty());
    } else {
        crate::actions::lemma_action_literal_round_trip(acts[i], spec_action_literal(acts[i]));
        lemma_actions_decode(acts, mode, i + 1);
        assert(seq![acts[i]] + acts.skip(i + 1) =~= acts.skip(i));
    }
}

/// Round-trip law: re-serializing a structurally validated configuration
/// and validating it again, in either representational mode, yields the
/// same configuration — never an error, never a changed field.
#[verifier::rlimit(100)]
pub proof fn lemma_round_trip(c: ConfigV<Seq<char>>, mode: SchemaMode)
    ensures
        spec_validate(spec_encode(c, mode), mode) == Ok::<ConfigV<Seq<char>>, ErrV>(c),
{
    lemma_key_facts();
    reveal_with_fuel(spec_find_at, 10);
    reveal_with_fuel(spec_first_dup_at, 10);
    reveal_with_fuel(spec_first_unknown_at, 10);
    lemma_actions_decode(c.data.actions, mode, 0);
    assert(c.data.actions.skip(0) =~= c.data.actions);
    let d = spec_encode(c, mode);
    let fs = d->Record_0;
    match c.description {
        Some(_) => {
            assert(fs[2].key == "description"@);
        },
        None => {
            assert(fs.len() == (if mode is Nested { 3int } else { 5int }));
        },
    }
    assert(spec_validate(d, mode) == Ok::<ConfigV<Seq<char>>, ErrV>(c));
}

/// Round-trip law for normalized configurations: the version is written
/// back as the text it was parsed from, so re-validating and
/// re-normalizing the serialized form restores the configuration
/// exactly.
pub proof fn lemma_round_trip_normalized(c: ConfigV<VersionV>, mode: SchemaMode)
    requires
        c.version.wf(),
    ensures
        spec_load(spec_encode(spec_strip(c), mode), mode) == Ok::<ConfigV<VersionV>, ErrV>(c),
{
    lemma_round_trip(spec_strip(c), mode);
    assert(spec_normalize(spec_strip(c)) == Ok::<ConfigV<VersionV>, ErrV>(c));
}

/// Mode-equivalence law: the flattened and the nested representation of
/// the same field values validate to the same configuration.
pub proof fn lemma_modes_agree(c: ConfigV<Seq<char>>)
    ensures
        spec_validate(spec_encode(c, SchemaMode::Flattened), SchemaMode::Flattened)
            == spec_validate(spec_encode(c, SchemaMode::Nested), SchemaMode::Nested),
{
    lemma_round_trip(c, SchemaMode::Flattened);
    lemma_round_trip(c, SchemaMode::Nested);
}

/// Source-exclusivity law: the source union decodes successfully
/// exactly from a record with a single, recognized tag. A record
/// carrying both arms — or any two fields — is rejected, and so is one
/// carrying none.
pub proof fn lemma_source_exactly_one_tag(fs: Seq<DocFieldV>, mode: SchemaMode)
    ensures
        spec_decode_source(fs, mode) is Ok ==> fs.len() == 1 && (fs[0].key == "file"@ || fs[0].key
            == "url"@),
        fs.len() == 0 ==> spec_decode_source(fs, mode) is Err,
        fs.len() > 1 ==> spec_decode_source(fs, mode) is Err,
{
}

/// Missing-field law: a well-keyed document that carries no `name`
/// field is rejected with exactly the failure that names `name`; the
/// same holds of `version`. A document that validates at all therefore
/// carried both.
pub proof fn lemma_missing_name_named(d: DocV, mode: SchemaMode)
    requires
        d is Record,
        spec_first_dup(d->Record_0) is None,
        spec_first_unknown(d->Record_0, spec_allowed_top(mode)) is None,
    ensures
        spec_find(d->Record_0, "name"@) is None ==> spec_validate(d, mode) == Err::<
            ConfigV<Seq<char>>,
            ErrV,
        >(ErrV::MissingField { path: "name"@ }),
{
}

/// Absent-description law: whenever a document validates and carries no
/// `description` field, the result holds no description — never an
/// empty-string stand-in.
pub proof fn lemma_absent_description_stays_absent(d: DocV, mode: SchemaMode)
    ensures
        spec_validate(d, mode) matches Ok(c) ==> (spec_find(d->Record_0, "description"@) is None
            ==> c.description is None),
{
}

/// Token-preservation law: a successfully decoded action list has one
/// token per element, each the decoding of that element's own spelling,
/// in the element's own position — no token is dropped, added, merged
/// or moved, however often a spelling repeats.
pub proof fn lemma_actions_preserved(items: Seq<DocV>, mode: SchemaMode)
    ensures
        spec_decode_actions(items, mode) matches Ok(acts) ==> acts.len() == items.len() && (forall|
            j: int,
        |
            0 <= j < items.len() ==> items[j] is Text && spec_parse_action(
                #[trigger] items[j]->Text_0,
            ) == Some(acts[j])),
{
    lemma_actions_preserved_at(items, mode, 0);
}

/// Token preservation for the list's suffix from position `i` on.
proof fn lemma_actions_preserved_at(items: Seq<DocV>, mode: SchemaMode, i: int)
    requires
        0 <= i <= items.len(),
    ensures
        spec_decode_actions_at(items, mode, i) matches Ok(acts) ==> acts.len() == items.len() - i
            && (forall|j: int|
            i <= j < items.len() ==> items[j] is Text && spec_parse_action(
                #[trigger] items[j]->Text_0,
            ) == Some(acts[j - i])),
    decreases items.len() - i,
{
    if i < items.len() {
        lemma_actions_preserved_at(items, mode, i + 1);
    }
}

/// The application-data field names never collide with the document's
/// own field names, in either representation.
pub proof fn lemma_appdata_names_disjoint()
    ensures
        !spec_in_set("name"@, spec_allowed_data()),
        !spec_in_set("version"@, spec_allowed_data()),
        !spec_in_set("description"@, spec_allowed_data()),
{
    lemma_key_facts();
}

} // verus!
