//! A bounded conversation history that keeps its system messages.
//!
//! When a new message takes the history over its limit, the oldest messages
//! that are not system messages are dropped, one at a time, until the history
//! fits again or only system messages are left.

use vstd::prelude::*;
use crate::providers::traits::Message;
use crate::text::str_eq;

verus! {

/// The message was written with the role `system`.
pub open spec fn is_system(m: Message) -> bool {
    m.role@ == "system"@
}

/// How many messages of `s` are not system messages.
pub open spec fn count_non_system(s: Seq<Message>) -> nat
    decreases s.len(),
{
    if s.len() == 0 {
        0
    } else if is_system(s[0]) {
        count_non_system(s.drop_first())
    } else {
        1 + count_non_system(s.drop_first())
    }
}

/// `s` without its first `k` non-system messages; everything else keeps its order.
pub open spec fn drop_non_system(s: Seq<Message>, k: nat) -> Seq<Message>
    decreases s.len(),
{
    if s.len() == 0 || k == 0 {
        s
    } else if is_system(s[0]) {
        seq![s[0]] + drop_non_system(s.drop_first(), k)
    } else {
        drop_non_system(s.drop_first(), (k - 1) as nat)
    }
}

/// What a history holding `s` keeps under the limit `max`: when `s` is too long,
/// as many of its oldest non-system messages as needed (or as exist) are dropped.
pub open spec fn trimmed(s: Seq<Message>, max: nat) -> Seq<Message> {
    if s.len() <= max {
        s
    } else {
        let excess = (s.len() - max) as nat;
        let k = if excess <= count_non_system(s) { excess } else { count_non_system(s) };
        drop_non_system(s, k)
    }
}

/// A history holding `s` is within its limit `max`, or holds system messages only.
pub open spec fn within_limit(s: Seq<Message>, max: nat) -> bool {
    s.len() <= max || count_non_system(s) == 0
}

/// Adding to a history holding `s` comes to an end: when the messages exceed the
/// limit, the oldest one is a system message, so that trimming never reaches it.
pub open spec fn add_terminates(s: Seq<Message>, max: nat) -> bool {
    s.len() <= max || is_system(s[0])
}

/// `sub` is `s` with some of its elements left out, the rest in their order.
pub open spec fn is_subsequence(sub: Seq<Message>, s: Seq<Message>) -> bool
    decreases s.len(),
{
    if s.len() == 0 {
        sub.len() == 0
    } else {
        ||| is_subsequence(sub, s.drop_first())
        ||| (sub.len() > 0 && sub[0] == s[0] && is_subsequence(sub.drop_first(), s.drop_first()))
    }
}

/// The system messages of `s`, in order.
pub open spec fn system_messages(s: Seq<Message>) -> Seq<Message> {
    s.filter(|m: Message| is_system(m))
}

proof fn lemma_count_bound(s: Seq<Message>)
    ensures
        count_non_system(s) <= s.len(),
    decreases s.len(),
{
    if s.len() > 0 {
        lemma_count_bound(s.drop_first());
    }
}

proof fn lemma_drop_len(s: Seq<Message>, k: nat)
    requires
        k <= count_non_system(s),
    ensures
        drop_non_system(s, k).len() == s.len() - k,
        count_non_system(drop_non_system(s, k)) == count_non_system(s) - k,
    decreases s.len(),
{
    if s.len() == 0 || k == 0 {
    } else if is_system(s[0]) {
        lemma_drop_len(s.drop_first(), k);
        let rest = drop_non_system(s.drop_first(), k);
        let d = seq![s[0]] + rest;
        assert(d[0] == s[0]);
        assert(d.drop_first() =~= rest);
    } else {
        lemma_drop_len(s.drop_first(), (k - 1) as nat);
    }
}

proof fn lemma_drop_keeps_head(s: Seq<Message>, k: nat)
    requires
        s.len() > 0,
        is_system(s[0]),
    ensures
        drop_non_system(s, k).len() > 0,
        drop_non_system(s, k)[0] == s[0],
{
    if k > 0 {
        let rest = drop_non_system(s.drop_first(), k);
        assert((seq![s[0]] + rest)[0] == s[0]);
    }
}

/// Dropping `k` and then one more non-system message drops `k + 1`.
proof fn lemma_drop_step(s: Seq<Message>, k: nat)
    requires
        k < count_non_system(s),
    ensures
        drop_non_system(drop_non_system(s, k), 1) == drop_non_system(s, k + 1),
    decreases s.len(),
{
    if k == 0 {
        assert(drop_non_system(s, 0) == s);
    } else if is_system(s[0]) {
        lemma_drop_step(s.drop_first(), k);
        let rest = drop_non_system(s.drop_first(), k);
        let d = seq![s[0]] + rest;
        assert(d[0] == s[0]);
        assert(d.drop_first() =~= rest);
        lemma_drop_len(s.drop_first(), k);
        assert(d.len() > 0);
    } else {
        lemma_drop_step(s.drop_first(), (k - 1) as nat);
    }
}

/// Removing the first non-system message, found at `p`, drops one non-system message.
proof fn lemma_remove_first(s: Seq<Message>, p: int)
    requires
        0 <= p < s.len(),
        !is_system(s[p]),
        forall|j: int| 0 <= j < p ==> is_system(#[trigger] s[j]),
    ensures
        s.remove(p) == drop_non_system(s, 1),
    decreases p,
{
    if p == 0 {
        assert(s.remove(0) =~= s.drop_first());
        assert(drop_non_system(s.drop_first(), 0) == s.drop_first());
    } else {
        let t = s.drop_first();
        assert forall|j: int| 0 <= j < p - 1 implies is_system(#[trigger] t[j]) by {
            assert(t[j] == s[j + 1]);
        }
        lemma_remove_first(t, p - 1);
        assert(is_system(s[0]));
        assert(s.remove(p) =~= seq![s[0]] + t.remove(p - 1));
    }
}

proof fn lemma_count_positive(s: Seq<Message>, p: int)
    requires
        0 <= p < s.len(),
        !is_system(s[p]),
    ensures
        count_non_system(s) > 0,
    decreases p,
{
    if p > 0 {
        assert(s.drop_first()[p - 1] == s[p]);
        lemma_count_positive(s.drop_first(), p - 1);
    }
}

proof fn lemma_all_system_count(s: Seq<Message>)
    requires
        forall|j: int| 0 <= j < s.len() ==> is_system(#[trigger] s[j]),
    ensures
        count_non_system(s) == 0,
    decreases s.len(),
{
    if s.len() > 0 {
        let t = s.drop_first();
        assert forall|j: int| 0 <= j < t.len() implies is_system(#[trigger] t[j]) by {
            assert(t[j] == s[j + 1]);
        }
        lemma_all_system_count(t);
    }
}

proof fn lemma_drop_subsequence(s: Seq<Message>, k: nat)
    ensures
        is_subsequence(drop_non_system(s, k), s),
    decreases s.len(),
{
    if s.len() == 0 {
    } else if k == 0 {
        lemma_subsequence_refl(s);
    } else if is_system(s[0]) {
        lemma_drop_subsequence(s.drop_first(), k);
        let rest = drop_non_system(s.drop_first(), k);
        let d = seq![s[0]] + rest;
        assert(d[0] == s[0]);
        assert(d.drop_first() =~= rest);
    } else {
        lemma_drop_subsequence(s.drop_first(), (k - 1) as nat);
    }
}

proof fn lemma_subsequence_refl(s: Seq<Message>)
    ensures
        is_subsequence(s, s),
    decreases s.len(),
{
    if s.len() > 0 {
        lemma_subsequence_refl(s.drop_first());
    }
}

proof fn lemma_drop_keeps_system(s: Seq<Message>, k: nat)
    ensures
        system_messages(drop_non_system(s, k)) == system_messages(s),
    decreases s.len(),
{
    if s.len() == 0 || k == 0 {
    } else if is_system(s[0]) {
        lemma_drop_keeps_system(s.drop_first(), k);
        let rest = drop_non_system(s.drop_first(), k);
        let d = seq![s[0]] + rest;
        assert(d[0] == s[0]);
        assert(d.drop_first() =~= rest);
        lemma_filter_head(d);
        lemma_filter_head(s);
    } else {
        lemma_drop_keeps_system(s.drop_first(), (k - 1) as nat);
        lemma_filter_head(s);
    }
}

/// The system messages of a non-empty sequence, by its first element.
proof fn lemma_filter_head(s: Seq<Message>)
    requires
        s.len() > 0,
    ensures
        system_messages(s) == if is_system(s[0]) {
            seq![s[0]] + system_messages(s.drop_first())
        } else {
            system_messages(s.drop_first())
        },
{
    let f = |m: Message| is_system(m);
    assert(s =~= seq![s[0]] + s.drop_first());
    s.drop_first().lemma_filter_prepend(s[0], f);
    assert(Seq::<Message>::empty() + system_messages(s.drop_first()) =~= system_messages(s.drop_first()));
}

/// The position of the oldest message that is not a system message, if any.
fn first_non_system(messages: &Vec<Message>) -> (r: Option<usize>)
    ensures
        match r {
            Some(p) => {
                &&& p < messages@.len()
                &&& !is_system(messages@[p as int])
                &&& forall|j: int| 0 <= j < p ==> is_system(#[trigger] messages@[j])
            },
            None => forall|j: int| 0 <= j < messages@.len() ==> is_system(#[trigger] messages@[j]),
        },
{
    let n = messages.len();
    let mut pos: usize = 0;
    while pos < n
        invariant
            n == messages@.len(),
            pos <= n,
            forall|j: int| 0 <= j < pos ==> is_system(#[trigger] messages@[j]),
        decreases n - pos,
    {
        if !str_eq(messages[pos].role.as_str(), "system") {
            return Some(pos);
        }
        pos = pos + 1;
    }
    None
}

/// A conversation history that holds at most `max_messages` messages, or
/// system messages only.
pub struct History {
    messages: Vec<Message>,
    max_messages: usize,
}

impl History {
    /// The messages held, oldest first.
    pub closed spec fn contents(&self) -> Seq<Message> {
        self.messages@
    }

    /// The limit the history was made with.
    pub closed spec fn limit(&self) -> nat {
        self.max_messages as nat
    }

    /// An empty history that will hold at most `max_messages` messages.
    pub fn new(max_messages: usize) -> (h: Self)
        ensures
            h.contents() == Seq::<Message>::empty(),
            h.limit() == max_messages,
    {
        History { messages: Vec::new(), max_messages }
    }

    /// Appends `message`, then drops the oldest non-system messages while the
    /// history is over its limit and still holds one.
    ///
    /// Over the limit, the trimming loop looks for the oldest non-system
    /// message and removes it only when it is not the very first message; so
    /// when the first message is not a system message the loop would never
    /// end, and the precondition leaves that case out. Callers keep a system
    /// message first once the history can overflow.
    pub fn add_message(&mut self, message: Message)
        requires
            old(self).contents().len() < usize::MAX,
            add_terminates(old(self).contents().push(message), old(self).limit()),
        ensures
            final(self).contents() == trimmed(old(self).contents().push(message), old(self).limit()),
            final(self).limit() == old(self).limit(),
            within_limit(final(self).contents(), final(self).limit()),
    {
        let ghost s = self.messages@.push(message);
        let ghost max = self.max_messages as nat;
        self.messages.push(message);
        let ghost mut k: nat = 0;
        proof {
            lemma_count_bound(s);
            assert(drop_non_system(s, 0) == s);
        }
        while self.messages.len() > self.max_messages
            invariant
                s.len() < usize::MAX + 1,
                max == self.max_messages,
                add_terminates(s, max),
                k <= count_non_system(s),
                s.len() <= max ==> k == 0,
                s.len() > max ==> k <= s.len() - max,
                self.messages@ == drop_non_system(s, k),
                self.messages@.len() == s.len() - k,
            ensures
                self.messages@ == trimmed(s, max),
                within_limit(self.messages@, max),
            decreases self.messages@.len(),
        {
            let found = first_non_system(&self.messages);
            if found.is_none() {
                proof {
                    lemma_all_system_count(self.messages@);
                    lemma_drop_len(s, k);
                }
                break;
            }
            let pos = found.unwrap();
            proof {
                lemma_drop_len(s, k);
                lemma_count_positive(self.messages@, pos as int);
                lemma_drop_keeps_head(s, k);
                lemma_remove_first(self.messages@, pos as int);
                lemma_drop_step(s, k);
            }
            if pos > 0 {
                self.messages.remove(pos);
                proof {
                    k = k + 1;
                }
            }
        }
        proof {
            lemma_drop_len(s, k);
        }
    }

    /// The messages held, oldest first.
    pub fn messages(&self) -> (r: &[Message])
        ensures
            r@ == self.contents(),
    {
        self.messages.as_slice()
    }

    /// Forgets every message; the limit stays.
    pub fn clear(&mut self)
        ensures
            final(self).contents() == Seq::<Message>::empty(),
            final(self).limit() == old(self).limit(),
    {
        self.messages.clear();
    }
}

/// Trimming never loses a system message, what stays keeps its order, and the
/// result is within the limit or holds system messages only.
pub proof fn law_trimmed_history(s: Seq<Message>, max: nat)
    ensures
        system_messages(trimmed(s, max)) == system_messages(s),
        is_subsequence(trimmed(s, max), s),
        within_limit(trimmed(s, max), max),
{
    if s.len() <= max {
        lemma_subsequence_refl(s);
    } else {
        let excess = (s.len() - max) as nat;
        let k = if excess <= count_non_system(s) { excess } else { count_non_system(s) };
        lemma_drop_keeps_system(s, k);
        lemma_drop_subsequence(s, k);
        lemma_drop_len(s, k);
    }
}

/// After `add_message(m)` on a history holding `s` with limit `max`, the
/// messages are an order-keeping selection of `s` followed by `m` that holds
/// every system message among them, and they are within the limit or are all
/// system messages.
pub proof fn law_add_message_result(s: Seq<Message>, m: Message, max: nat)
    ensures
        is_subsequence(trimmed(s.push(m), max), s.push(m)),
        system_messages(trimmed(s.push(m), max)) == system_messages(s.push(m)),
        within_limit(trimmed(s.push(m), max), max),
{
    law_trimmed_history(s.push(m), max);
}

/// A message added to a history that has room for it is simply appended.
pub proof fn law_add_with_room_appends(s: Seq<Message>, max: nat, m: Message)
    requires
        s.len() < max,
    ensures
        trimmed(s.push(m), max) == s.push(m),
{
}

/// Trimming takes the history to its limit exactly when enough non-system messages exist.
pub proof fn law_trim_reaches_limit(s: Seq<Message>, max: nat)
    requires
        s.len() > max,
        count_non_system(s) >= s.len() - max,
    ensures
        trimmed(s, max).len() == max,
{
    lemma_drop_len(s, (s.len() - max) as nat);
}

} // verus!
