use vstd::prelude::*;

use crate::text::opt_text;

verus! {

/// The prefix that names a polling method: `poll_`.
pub open spec fn poll_prefix() -> Seq<char> {
    seq!['p', 'o', 'l', 'l', '_']
}

/// `name` without its leading `poll_`, when it has one.
pub open spec fn spec_strip_poll_prefix(name: Seq<char>) -> Option<Seq<char>> {
    if name.len() >= 5 && name.take(5) == poll_prefix() {
        Some(name.skip(5))
    } else {
        None
    }
}

/// A word of lowercase ASCII letters, at least one long.
pub open spec fn is_lower_word(w: Seq<char>) -> bool {
    &&& w.len() > 0
    &&& forall|i: int| 0 <= i < w.len() ==> 97 <= (#[trigger] w[i] as int) <= 122
}

/// The words `ws` joined by `_`, as in `read_to_end`.
pub open spec fn snake_join(ws: Seq<Seq<char>>) -> Seq<char>
    decreases ws.len(),
{
    if ws.len() == 0 {
        Seq::empty()
    } else if ws.len() == 1 {
        ws[0]
    } else {
        snake_join(ws.drop_last()) + seq!['_'] + ws.last()
    }
}

/// The word `w` with its first letter made uppercase.
pub open spec fn capitalized(w: Seq<char>) -> Seq<char> {
    w.update(0, ((w[0] as int) - 32) as char)
}

/// The words `ws`, each capitalized, one after the other, as in `ReadTo`.
pub open spec fn capitalized_concat(ws: Seq<Seq<char>>) -> Seq<char>
    decreases ws.len(),
{
    if ws.len() == 0 {
        Seq::empty()
    } else {
        capitalized_concat(ws.drop_last()) + capitalized(ws.last())
    }
}

/// `r` is a class-case form of the snake-case name made of the words `ws`:
/// it starts with every word but the last, capitalized and in order, and
/// something derived from the last word follows.
pub open spec fn keeps_leading_words(ws: Seq<Seq<char>>, r: Seq<char>) -> bool {
    &&& capitalized_concat(ws.drop_last()).len() < r.len()
    &&& r.take(capitalized_concat(ws.drop_last()).len() as int) == capitalized_concat(ws.drop_last())
}

/// `name` is the snake-case name made of the lowercase words `ws`.
pub open spec fn spells_snake_words(name: Seq<char>, ws: Seq<Seq<char>>) -> bool {
    &&& ws.len() > 0
    &&& forall|k: int| 0 <= k < ws.len() ==> is_lower_word(#[trigger] ws[k])
    &&& snake_join(ws) == name
}

/// What `Inflector::to_class_case` returns for `name`.
pub uninterp spec fn class_case(name: Seq<char>) -> Seq<char>;

/// Calls `inflector::Inflector::to_class_case`, which turns `name` into
/// UpperCamelCase, with its last word made singular. The contract claims that
/// the result is a function of `name` alone, and, for a name made of
/// lowercase ASCII words joined by `_`, that the result starts with every
/// word but the last, each capitalized, followed by at least one character:
/// `to_case_camel_like` capitalizes each word and drops the `_`, and the
/// result is split before its last uppercase letter, the start of the last
/// word, only the part after the split going through `to_singular`. What
/// `to_singular` makes of the last word (a regex-driven rewrite) is left
/// unsaid beyond its not being empty: each of its rules keeps a non-empty
/// capture or puts in a non-empty replacement for a capitalized word.
#[verifier::external_body]
fn to_class_case(name: &str) -> (r: String)
    ensures
        r@ == class_case(name@),
        forall|ws: Seq<Seq<char>>| #[trigger]
            spells_snake_words(name@, ws) ==> keeps_leading_words(ws, r@),
{
    inflector::Inflector::to_class_case(name)
}

/// The name of the async method: the one given in the attribute, else the
/// polling method's name without `poll_`; none when neither exists.
pub open spec fn spec_async_method_name(given: Option<Seq<char>>, poll_name: Seq<char>) -> Option<
    Seq<char>,
> {
    match given {
        Some(n) => Some(n),
        None => spec_strip_poll_prefix(poll_name),
    }
}

/// The name of the future: the one given in the attribute, else the trait's
/// name followed by the class-case form of the polling method's name without
/// `poll_`; none when neither exists.
pub open spec fn spec_future_name(
    given: Option<Seq<char>>,
    trait_name: Seq<char>,
    poll_name: Seq<char>,
) -> Option<Seq<char>> {
    match given {
        Some(n) => Some(n),
        None => match spec_strip_poll_prefix(poll_name) {
            Some(base) => Some(trait_name + class_case(base)),
            None => None,
        },
    }
}

/// `name` without its leading `poll_`, or none when it does not start with `poll_`.
pub fn strip_poll_prefix(name: &str) -> (r: Option<&str>)
    ensures
        match spec_strip_poll_prefix(name@) {
            Some(base) => r matches Some(b) && b@ == base,
            None => r is None,
        },
{
    let len = name.unicode_len();
    if len < 5 {
        return None;
    }
    let prefix = ['p', 'o', 'l', 'l', '_'];
    let mut i: usize = 0;
    while i < 5
        invariant
            len == name@.len(),
            5 <= len,
            i <= 5,
            prefix@ == poll_prefix(),
            forall|j: int| 0 <= j < i ==> name@[j] == poll_prefix()[j],
        decreases 5 - i,
    {
        if name.get_char(i) != prefix[i] {
            assert(name@.take(5)[i as int] != poll_prefix()[i as int]);
            return None;
        }
        i = i + 1;
    }
    assert(name@.take(5) =~= poll_prefix());
    Some(name.substring_char(5, len))
}

/// The trait's name followed by the class-case name of the method.
pub fn join_future_name(trait_name: &str, class_name: &str) -> (r: String)
    ensures
        r@ == trait_name@ + class_name@,
{
    let mut r = String::from_str(trait_name);
    r.append(class_name);
    r
}

/// The name a future gets when the attribute names none: the trait's name
/// followed by the class-case form of `base`.
///
/// For a base made of lowercase words joined by `_`, every word but the last
/// stands capitalized and in order right after the trait's name, and the last
/// word contributes at least one character.
pub fn default_future_name(trait_name: &str, base: &str) -> (r: String)
    ensures
        r@ == trait_name@ + class_case(base@),
        forall|ws: Seq<Seq<char>>| #[trigger]
            spells_snake_words(base@, ws) ==> {
                &&& r@.take(trait_name@.len() as int) == trait_name@
                &&& keeps_leading_words(ws, r@.skip(trait_name@.len() as int))
            },
{
    let class_name = to_class_case(base);
    let r = join_future_name(trait_name, class_name.as_str());
    assert(r@.take(trait_name@.len() as int) =~= trait_name@);
    assert(r@.skip(trait_name@.len() as int) =~= class_name@);
    r
}

/// The name of the async method generated for the polling method `poll_name`.
pub fn async_method_name(given: &Option<String>, poll_name: &str) -> (r: Option<String>)
    ensures
        opt_text(r) == spec_async_method_name(opt_text(*given), poll_name@),
{
    match given {
        Some(n) => Some(n.clone()),
        None => match strip_poll_prefix(poll_name) {
            Some(base) => Some(String::from_str(base)),
            None => None,
        },
    }
}

/// The name of the future generated for the polling method `poll_name` of
/// the trait `trait_name`.
pub fn future_name(given: &Option<String>, trait_name: &str, poll_name: &str) -> (r: Option<String>)
    ensures
        opt_text(r) == spec_future_name(opt_text(*given), trait_name@, poll_name@),
        forall|ws: Seq<Seq<char>>| #[trigger]
            spells_snake_words(poll_name@.skip(5), ws) ==> (given is None && spec_strip_poll_prefix(
                poll_name@,
            ) is Some ==> {
                &&& r is Some
                &&& r->Some_0@.take(trait_name@.len() as int) == trait_name@
                &&& keeps_leading_words(ws, r->Some_0@.skip(trait_name@.len() as int))
            }),
{
    match given {
        Some(n) => Some(n.clone()),
        None => match strip_poll_prefix(poll_name) {
            Some(base) => Some(default_future_name(trait_name, base)),
            None => None,
        },
    }
}

/// Removing `poll_` gives back what followed it.
pub proof fn lemma_strip_after_prefix(base: Seq<char>)
    ensures
        spec_strip_poll_prefix(poll_prefix() + base) == Some(base),
{
    assert((poll_prefix() + base).take(5) =~= poll_prefix());
    assert((poll_prefix() + base).skip(5) =~= base);
}

/// The capitalized words before position `k` come first in the capitalized
/// words before any later position.
proof fn lemma_capitalized_prefix(ws: Seq<Seq<char>>, k: int, n: int)
    requires
        0 <= k <= n <= ws.len(),
    ensures
        capitalized_concat(ws.take(n)).take(capitalized_concat(ws.take(k)).len() as int)
            == capitalized_concat(ws.take(k)),
        capitalized_concat(ws.take(k)).len() <= capitalized_concat(ws.take(n)).len(),
    decreases n - k,
{
    if k < n {
        lemma_capitalized_prefix(ws, k, n - 1);
        assert(ws.take(n).drop_last() =~= ws.take(n - 1));
        let a = capitalized_concat(ws.take(k));
        let b = capitalized_concat(ws.take(n - 1));
        let c = capitalized_concat(ws.take(n));
        assert(c == b + capitalized(ws.take(n).last()));
        assert(c.take(a.len() as int) =~= b.take(a.len() as int));
    }
}

/// Every word of a snake-case base but the last appears, capitalized, in a
/// result that keeps the leading words: word `k` stands right after the
/// capitalized words before it.
pub proof fn law_every_leading_word_appears(ws: Seq<Seq<char>>, r: Seq<char>, k: int)
    requires
        keeps_leading_words(ws, r),
        0 <= k < ws.len() - 1,
    ensures
        ({
            let start = capitalized_concat(ws.take(k)).len() as int;
            let word = capitalized(ws[k]);
            &&& start + word.len() <= r.len()
            &&& r.subrange(start, start + word.len()) == word
        }),
{
    let n = ws.len() - 1;
    assert(ws.take(n) =~= ws.drop_last());
    lemma_capitalized_prefix(ws, k + 1, n);
    assert(ws.take(k + 1).drop_last() =~= ws.take(k));
    let a = capitalized_concat(ws.take(k));
    let b = capitalized_concat(ws.take(k + 1));
    let h = capitalized_concat(ws.drop_last());
    assert(b == a + capitalized(ws[k]));
    let start = a.len() as int;
    let word = capitalized(ws[k]);
    assert(r.take(h.len() as int) == h);
    assert(h.take(b.len() as int) == b);
    assert forall|j: int| 0 <= j < word.len() implies r.subrange(start, start + word.len())[j]
        == word[j] by {
        assert(r[start + j] == r.take(h.len() as int)[start + j]);
        assert(h[start + j] == h.take(b.len() as int)[start + j]);
        assert(b[start + j] == word[j]);
    }
    assert(r.subrange(start, start + word.len()) =~= word);
}

/// A name loses `poll_` only when it starts with it, and what is left is
/// exactly what followed it.
pub proof fn law_strip_only_the_prefix(name: Seq<char>)
    ensures
        spec_strip_poll_prefix(name) matches Some(base) ==> name == poll_prefix() + base,
        spec_strip_poll_prefix(name) is None ==> !(exists|base: Seq<char>| name == poll_prefix()
            + base),
{
    if let Some(base) = spec_strip_poll_prefix(name) {
        assert(name =~= name.take(5) + name.skip(5));
    }
    if exists|base: Seq<char>| name == poll_prefix() + base {
        let base = choose|base: Seq<char>| name == poll_prefix() + base;
        lemma_strip_after_prefix(base);
    }
}

} // verus!
