//! Filling `{}` placeholders of a message template, left to right.

use vstd::prelude::*;
use crate::text::owned;

verus! {

/// A `{}` placeholder starts at position `i` of `s`.
pub open spec fn placeholder_at(s: Seq<char>, i: int) -> bool {
    0 <= i && i + 1 < s.len() && s[i] == '{' && s[i + 1] == '}'
}

/// The first position, from `i` on, where a placeholder starts.
pub open spec fn first_placeholder_from(s: Seq<char>, i: int) -> Option<int>
    decreases s.len() - i,
{
    if i < 0 || i + 1 >= s.len() {
        None
    } else if placeholder_at(s, i) {
        Some(i)
    } else {
        first_placeholder_from(s, i + 1)
    }
}

/// How many placeholders `s` holds from position `i` on.
pub open spec fn placeholders_from(s: Seq<char>, i: int) -> nat
    decreases s.len() - i,
{
    if i < 0 || i + 1 >= s.len() {
        0
    } else if placeholder_at(s, i) {
        1 + placeholders_from(s, i + 2)
    } else {
        placeholders_from(s, i + 1)
    }
}

/// How many `{}` placeholders `s` holds.
pub open spec fn placeholder_count(s: Seq<char>) -> nat {
    placeholders_from(s, 0)
}

/// `s` with its first placeholder replaced by `arg`; `s` itself when it holds none.
pub open spec fn replace_first_placeholder(s: Seq<char>, arg: Seq<char>) -> Seq<char> {
    match first_placeholder_from(s, 0) {
        Some(i) => s.subrange(0, i) + arg + s.subrange(i + 2, s.len() as int),
        None => s,
    }
}

/// The template with each argument in turn put in place of the first
/// placeholder left in the text so far.
pub open spec fn fill_placeholders(template: Seq<char>, args: Seq<Seq<char>>) -> Seq<char>
    decreases args.len(),
{
    if args.len() == 0 {
        template
    } else {
        fill_placeholders(replace_first_placeholder(template, args[0]), args.drop_first())
    }
}

/// The strings of `args`, as character sequences.
pub open spec fn views_of(args: Seq<String>) -> Seq<Seq<char>> {
    args.map_values(|a: String| a@)
}

proof fn lemma_first_placeholder_in_range(s: Seq<char>, i: int)
    ensures
        first_placeholder_from(s, i) matches Some(p) ==> i <= p && placeholder_at(s, p),
    decreases s.len() - i,
{
    if !(i < 0 || i + 1 >= s.len()) && !placeholder_at(s, i) {
        lemma_first_placeholder_in_range(s, i + 1);
    }
}

/// The position of the first `{}` in `s`, as `str::find("{}")` counts characters.
pub fn find_placeholder(s: &str) -> (r: Option<usize>)
    ensures
        r matches Some(p) ==> first_placeholder_from(s@, 0) == Some(p as int),
        r is None ==> first_placeholder_from(s@, 0) is None,
{
    let n = s.unicode_len();
    let mut i: usize = 0;
    while i < n
        invariant
            n == s@.len(),
            i <= n,
            first_placeholder_from(s@, 0) == first_placeholder_from(s@, i as int),
        decreases n - i,
    {
        if i + 1 < n && s.get_char(i) == '{' && s.get_char(i + 1) == '}' {
            return Some(i);
        }
        i = i + 1;
    }
    None
}

/// Replaces the first `{}` of `s` by `arg`.
pub fn replace_first(s: String, arg: &str) -> (r: String)
    ensures
        r@ == replace_first_placeholder(s@, arg@),
{
    match find_placeholder(s.as_str()) {
        Some(p) => {
            proof {
                lemma_first_placeholder_in_range(s@, 0);
            }
            let n = s.unicode_len();
            let mut r = owned(s.as_str().substring_char(0, p));
            r.append(arg);
            r.append(s.as_str().substring_char(p + 2, n));
            r
        },
        None => s,
    }
}

/// Fills the placeholders of `template` with `args`, one after the other.
pub fn fill(template: String, args: &[String]) -> (r: String)
    ensures
        r@ == fill_placeholders(template@, views_of(args@)),
{
    let mut acc = template;
    let mut i: usize = 0;
    assert(views_of(args@).subrange(0, args@.len() as int) =~= views_of(args@));
    while i < args.len()
        invariant
            i <= args@.len(),
            fill_placeholders(template@, views_of(args@)) == fill_placeholders(
                acc@,
                views_of(args@).subrange(i as int, args@.len() as int),
            ),
        decreases args@.len() - i,
    {
        let ghost rest = views_of(args@).subrange(i as int, args@.len() as int);
        assert(rest[0] == args@[i as int]@);
        assert(rest.drop_first() =~= views_of(args@).subrange(i + 1, args@.len() as int));
        acc = replace_first(acc, args[i].as_str());
        i = i + 1;
    }
    assert(views_of(args@).subrange(i as int, args@.len() as int) =~= Seq::<Seq<char>>::empty());
    acc
}

/// A template without placeholders comes back unchanged, whatever the arguments.
pub proof fn law_no_placeholder_no_change(template: Seq<char>, args: Seq<Seq<char>>)
    requires
        first_placeholder_from(template, 0) is None,
    ensures
        fill_placeholders(template, args) == template,
    decreases args.len(),
{
    if args.len() > 0 {
        law_no_placeholder_no_change(template, args.drop_first());
    }
}

/// With no arguments the template comes back unchanged.
pub proof fn law_no_arguments_no_change(template: Seq<char>)
    ensures
        fill_placeholders(template, Seq::empty()) == template,
{
}

} // verus!
