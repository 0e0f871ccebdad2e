use chat_relay::history::order_history;
use chat_relay::model::{HistoryMessage, Id, Timestamp};

fn entry(content: &str, micros: i64) -> HistoryMessage {
    HistoryMessage {
        user_id: Id { bits: 1 },
        username: "u".to_string(),
        content: content.to_string(),
        created_at: Timestamp { micros },
    }
}

fn contents(ms: &[HistoryMessage]) -> Vec<String> {
    ms.iter().map(|m| m.content.clone()).collect()
}

#[test]
fn history_is_ordered_by_instant() {
    let out = order_history(vec![entry("c", 30), entry("a", 10), entry("b", 20), entry("z", -5)]);
    assert_eq!(contents(&out), vec!["z", "a", "b", "c"]);
    for w in out.windows(2) {
        assert!(w[0].created_at.micros <= w[1].created_at.micros);
    }
}

#[test]
fn history_keeps_order_of_equal_instants() {
    let out = order_history(vec![entry("x", 5), entry("p", 1), entry("y", 5), entry("q", 1), entry("z", 5)]);
    assert_eq!(contents(&out), vec!["p", "q", "x", "y", "z"]);
}

#[test]
fn history_edge_sizes() {
    assert!(order_history(vec![]).is_empty());
    assert_eq!(contents(&order_history(vec![entry("only", 7)])), vec!["only"]);
    let out = order_history(vec![entry("late", i64::MAX), entry("early", i64::MIN)]);
    assert_eq!(contents(&out), vec!["early", "late"]);
}
