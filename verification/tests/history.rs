use mini_bot_rs::agent::History;
use mini_bot_rs::providers::Message;

fn msg(role: &str, content: &str) -> Message {
    Message { role: role.to_string(), content: content.to_string() }
}

fn contents(h: &History) -> Vec<(String, String)> {
    h.messages().iter().map(|m| (m.role.clone(), m.content.clone())).collect()
}

fn pairs(v: &[(&str, &str)]) -> Vec<(String, String)> {
    v.iter().map(|(r, c)| (r.to_string(), c.to_string())).collect()
}

#[test]
fn new_history_is_empty() {
    let h = History::new(3);
    assert!(h.messages().is_empty());
}

#[test]
fn adding_within_limit_appends() {
    let mut h = History::new(3);
    h.add_message(msg("user", "a"));
    h.add_message(msg("assistant", "b"));
    assert_eq!(contents(&h), pairs(&[("user", "a"), ("assistant", "b")]));
}

#[test]
fn overflow_drops_oldest_non_system_messages() {
    let mut h = History::new(3);
    h.add_message(msg("system", "rules"));
    h.add_message(msg("user", "a"));
    h.add_message(msg("assistant", "b"));
    h.add_message(msg("user", "c"));
    assert_eq!(
        contents(&h),
        pairs(&[("system", "rules"), ("assistant", "b"), ("user", "c")])
    );
    h.add_message(msg("system", "more rules"));
    assert_eq!(
        contents(&h),
        pairs(&[("system", "rules"), ("user", "c"), ("system", "more rules")])
    );
}

#[test]
fn system_messages_are_never_dropped() {
    let mut h = History::new(1);
    h.add_message(msg("system", "one"));
    h.add_message(msg("system", "two"));
    h.add_message(msg("user", "question"));
    assert_eq!(contents(&h), pairs(&[("system", "one"), ("system", "two")]));
}

#[test]
fn zero_limit_keeps_only_system_messages() {
    let mut h = History::new(0);
    h.add_message(msg("system", "s"));
    h.add_message(msg("user", "u"));
    assert_eq!(contents(&h), pairs(&[("system", "s")]));
}

#[test]
fn clear_empties_the_history_and_keeps_the_limit() {
    let mut h = History::new(2);
    h.add_message(msg("user", "a"));
    h.clear();
    assert!(h.messages().is_empty());
    h.add_message(msg("user", "b"));
    h.add_message(msg("user", "c"));
    assert_eq!(contents(&h), pairs(&[("user", "b"), ("user", "c")]));
}

#[test]
fn role_must_match_exactly_to_count_as_system() {
    let mut h = History::new(1);
    h.add_message(msg("system", "s"));
    h.add_message(msg("System", "not a system message"));
    assert_eq!(contents(&h), pairs(&[("system", "s")]));
}
