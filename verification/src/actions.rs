use vstd::prelude::*;

verus! {

/// The operations a configuration document may request.
///
/// The `actions` field of the application-data block lists these tokens in
/// the order they are to be executed; a token may appear more than once.
#[derive(Clone, Copy, PartialEq, Eq, Structural, Debug)]
pub enum Actions {
    Foo,
    Bar,
    Baz,
    FooBar,
    BarBaz,
    FooBarBaz,
}

/// The external spelling of each token: its snake-case name, except
/// `FooBarBaz`, which is written with the fixed literal `fbb` on the wire.
/// The decoder and the schema generator both consult this one table.
pub open spec fn spec_action_literal(a: Actions) -> Seq<char> {
    match a {
        Actions::Foo => "foo"@,
        Actions::Bar => "bar"@,
        Actions::Baz => "baz"@,
        Actions::FooBar => "foo_bar"@,
        Actions::BarBaz => "bar_baz"@,
        Actions::FooBarBaz => "fbb"@,
    }
}

/// The token an external spelling decodes to, if any.
pub open spec fn spec_parse_action(s: Seq<char>) -> Option<Actions> {
    if s == "foo"@ {
        Some(Actions::Foo)
    } else if s == "bar"@ {
        Some(Actions::Bar)
    } else if s == "baz"@ {
        Some(Actions::Baz)
    } else if s == "foo_bar"@ {
        Some(Actions::FooBar)
    } else if s == "bar_baz"@ {
        Some(Actions::BarBaz)
    } else if s == "fbb"@ {
        Some(Actions::FooBarBaz)
    } else {
        None
    }
}

/// String equality by content.
pub(crate) fn str_eq(a: &str, b: &str) -> (r: bool)
    ensures
        r == (a@ == b@),
{
    a.to_owned() == b.to_owned()
}

/// The external spelling of one token.
pub fn action_literal(a: Actions) -> (r: &'static str)
    ensures
        r@ == spec_action_literal(a),
{
    match a {
        Actions::Foo => "foo",
        Actions::Bar => "bar",
        Actions::Baz => "baz",
        Actions::FooBar => "foo_bar",
        Actions::BarBaz => "bar_baz",
        Actions::FooBarBaz => "fbb",
    }
}

/// Decode one external spelling; `None` when the literal is not in the
/// accepted set.
pub fn parse_action(s: &str) -> (r: Option<Actions>)
    ensures
        r == spec_parse_action(s@),
{
    if str_eq(s, "foo") {
        Some(Actions::Foo)
    } else if str_eq(s, "bar") {
        Some(Actions::Bar)
    } else if str_eq(s, "baz") {
        Some(Actions::Baz)
    } else if str_eq(s, "foo_bar") {
        Some(Actions::FooBar)
    } else if str_eq(s, "bar_baz") {
        Some(Actions::BarBaz)
    } else if str_eq(s, "fbb") {
        Some(Actions::FooBarBaz)
    } else {
        None
    }
}

/// No two tokens share an external spelling, so the wire format is
/// unambiguous and the schema's literal set has six distinct entries.
pub proof fn lemma_action_literals_distinct(a: Actions, b: Actions)
    ensures
        spec_action_literal(a) == spec_action_literal(b) ==> a == b,
{
    lemma_action_literal_facts();
}

/// Concrete lengths and characters of the six external spellings, enough
/// to tell any two of them apart.
pub(crate) proof fn lemma_action_literal_facts()
    ensures
        "foo"@.len() == 3 && "bar"@.len() == 3 && "baz"@.len() == 3,
        "fbb"@.len() == 3 && "foo_bar"@.len() == 7 && "bar_baz"@.len() == 7,
        "foo"@[0] == 'f' && "bar"@[0] == 'b' && "baz"@[0] == 'b' && "fbb"@[0] == 'f',
        "foo"@[1] == 'o' && "bar"@[1] == 'a' && "baz"@[1] == 'a' && "fbb"@[1] == 'b',
        "bar"@[2] == 'r' && "baz"@[2] == 'z',
        "foo_bar"@[0] == 'f' && "bar_baz"@[0] == 'b',
{
    reveal_strlit("foo");
    reveal_strlit("bar");
    reveal_strlit("baz");
    reveal_strlit("foo_bar");
    reveal_strlit("bar_baz");
    reveal_strlit("fbb");
}

/// Decoding a token's external spelling gives back that token, and a
/// spelling that decodes at all decodes to the token it is the spelling of.
/// In particular `fbb` is accepted exactly for `FooBarBaz`, and no other
/// spelling (such as the full snake-case name) reaches that token.
pub proof fn lemma_action_literal_round_trip(a: Actions, s: Seq<char>)
    ensures
        spec_parse_action(spec_action_literal(a)) == Some(a),
        spec_parse_action(s) == Some(a) ==> spec_action_literal(a) == s,
{
    lemma_action_literal_facts();
}

} // verus!
