//! Placeholder substitution: `{{.key}}` tokens of a command template are
//! replaced by the values of the path variables.

use vstd::prelude::*;
use crate::table::{KeyedTable, pairs_view};
use crate::text::{
    chars_of, extend_chars, lemma_replace_absent, occurs_in, replace_all, replace_chars, string_of,
};

verus! {

/// The token that stands for the variable `key` in a template: `{{.key}}`.
pub open spec fn placeholder(key: Seq<char>) -> Seq<char> {
    seq!['{', '{', '.'] + key + seq!['}', '}']
}

/// `template` after the variables of `paths` were substituted one after the
/// other, in the order of `paths`. Each step replaces every occurrence of one
/// variable's token in what the steps before it left.
pub open spec fn substitute(template: Seq<char>, paths: Seq<(Seq<char>, Seq<char>)>) -> Seq<char>
    decreases paths.len(),
{
    if paths.len() == 0 {
        template
    } else {
        replace_all(
            substitute(template, paths.drop_last()),
            placeholder(paths.last().0),
            paths.last().1,
        )
    }
}

/// The token of the variable `key`, as characters.
pub fn placeholder_chars(key: &str) -> (out: Vec<char>)
    ensures
        out@ == placeholder(key@),
{
    let mut out: Vec<char> = Vec::new();
    out.push('{');
    out.push('{');
    out.push('.');
    let key_chars = chars_of(key);
    extend_chars(&mut out, &key_chars);
    out.push('}');
    out.push('}');
    assert(out@ =~= placeholder(key@));
    out
}

/// Rewrites the `{{.key}}` tokens of `value` with the variables of `paths`.
/// A token whose key `paths` does not hold stays as it is.
pub fn replace_placeholders(value: &str, paths: &KeyedTable<String>) -> (out: String)
    ensures
        out@ == substitute(value@, paths@),
{
    let entries = paths.entries();
    let mut result = chars_of(value);
    let mut i: usize = 0;
    assert(paths@.take(0) =~= Seq::<(Seq<char>, Seq<char>)>::empty());
    while i < entries.len()
        invariant
            i <= entries.len(),
            pairs_view(entries@) == paths@,
            result@ == substitute(value@, paths@.take(i as int)),
        decreases entries.len() - i,
    {
        let token = placeholder_chars(entries[i].0.as_str());
        let path_value = chars_of(entries[i].1.as_str());
        proof {
            let upto = paths@.take(i + 1);
            assert(upto.drop_last() =~= paths@.take(i as int));
            assert(upto.last() == paths@[i as int]);
        }
        result = replace_chars(&result, &token, &path_value);
        i += 1;
    }
    assert(paths@.take(i as int) =~= paths@);
    string_of(&result)
}

/// A template that holds the token of none of the variables comes out of the
/// substitution unchanged.
pub proof fn lemma_substitute_without_tokens(
    template: Seq<char>,
    paths: Seq<(Seq<char>, Seq<char>)>,
)
    requires
        forall|i: int|
            0 <= i < paths.len() ==> !occurs_in(placeholder((#[trigger] paths[i]).0), template),
    ensures
        substitute(template, paths) == template,
    decreases paths.len(),
{
    if paths.len() > 0 {
        let front = paths.drop_last();
        assert forall|i: int| 0 <= i < front.len() implies !occurs_in(
            placeholder((#[trigger] front[i]).0),
            template,
        ) by {
            assert(front[i] == paths[i]);
        }
        lemma_substitute_without_tokens(template, front);
        assert(!occurs_in(placeholder(paths[paths.len() - 1].0), template));
        lemma_replace_absent(template, placeholder(paths.last().0), paths.last().1);
    }
}

} // verus!
