//! Names of the VDA 5050 MQTT topics and what a received topic is about.
use vstd::prelude::*;

use crate::utils::{get_topic_type, is_topic_type, str_equal};

verus! {

/// What follows the last `'/'` of a topic, or the whole topic where it holds none.
pub open spec fn topic_type(path: Seq<char>) -> Seq<char>
    decreases path.len(),
{
    if path.len() == 0 {
        path
    } else if path.last() == '/' {
        Seq::empty()
    } else {
        topic_type(path.drop_last()).push(path.last())
    }
}

/// `topic_type` is the last segment of its topic.
pub proof fn lemma_topic_type_is_last_segment(path: Seq<char>)
    ensures
        is_topic_type(path, topic_type(path)),
    decreases path.len(),
{
    if path.len() > 0 && path.last() != '/' {
        let prefix = path.drop_last();
        lemma_topic_type_is_last_segment(prefix);
        let r = topic_type(prefix);
        let r2 = r.push(path.last());
        assert(r2 =~= path.subrange(path.len() - r2.len(), path.len() as int)) by {
            assert forall|j: int| 0 <= j < r2.len() implies r2[j] == path[path.len() - r2.len() + j] by {
                if j < r.len() {
                    assert(r[j] == prefix[prefix.len() - r.len() + j]);
                }
            }
        }
        assert(!r2.contains('/')) by {
            if r2.contains('/') {
                let k = choose|k: int| 0 <= k < r2.len() && r2[k] == '/';
                if k < r.len() {
                    assert(r.contains('/'));
                }
            }
        }
        if r2.len() < path.len() {
            assert(path[path.len() - r2.len() - 1] == prefix[prefix.len() - r.len() - 1]);
        }
    } else if path.len() > 0 {
        assert(topic_type(path) =~= path.subrange(path.len() as int, path.len() as int));
    } else {
        assert(topic_type(path) =~= path.subrange(0, 0));
    }
}

/// A topic has exactly one last segment.
pub proof fn lemma_topic_type_unique(path: Seq<char>, a: Seq<char>, b: Seq<char>)
    requires
        is_topic_type(path, a),
        is_topic_type(path, b),
    ensures
        a == b,
{
    if a.len() < b.len() {
        let k = b.len() - a.len() - 1;
        assert(b[k] == path[path.len() - a.len() - 1]);
        assert(b.contains('/'));
    } else if b.len() < a.len() {
        let k = a.len() - b.len() - 1;
        assert(a[k] == path[path.len() - b.len() - 1]);
        assert(a.contains('/'));
    } else {
        assert(a =~= b);
    }
}

/// The last segment of a topic written as `prefix/segment`, where the segment
/// holds no `'/'`, is that segment, whatever the prefix.
pub proof fn lemma_topic_type_of_joined(prefix: Seq<char>, segment: Seq<char>)
    requires
        !segment.contains('/'),
    ensures
        topic_type(prefix + seq!['/'] + segment) == segment,
{
    let path = prefix + seq!['/'] + segment;
    lemma_topic_type_is_last_segment(path);
    assert(path.subrange(path.len() - segment.len(), path.len() as int) =~= segment);
    assert(path[path.len() - segment.len() - 1] == '/');
    lemma_topic_type_unique(path, topic_type(path), segment);
}

/// Which kind of message a received topic carries.
#[derive(Clone, Copy, PartialEq, Eq, Structural, Debug)]
pub enum TopicKind {
    /// An order.
    Order,
    /// Instant actions.
    InstantActions,
    /// Anything else.
    Other,
}

/// The kind of message that arrives on a topic, by the topic's last segment.
pub open spec fn topic_kind_of(topic: Seq<char>) -> TopicKind {
    if topic_type(topic) == "order"@ {
        TopicKind::Order
    } else if topic_type(topic) == "instantActions"@ {
        TopicKind::InstantActions
    } else {
        TopicKind::Other
    }
}

/// Tells which kind of message arrives on `topic`: an order where its last
/// segment is "order", instant actions where it is "instantActions".
pub fn topic_kind(topic: &str) -> (r: TopicKind)
    ensures
        r == topic_kind_of(topic@),
{
    let t = get_topic_type(topic);
    proof {
        lemma_topic_type_is_last_segment(topic@);
        lemma_topic_type_unique(topic@, t@, topic_type(topic@));
    }
    if str_equal(t, "order") {
        TopicKind::Order
    } else if str_equal(t, "instantActions") {
        TopicKind::InstantActions
    } else {
        TopicKind::Other
    }
}

/// `interface/version/manufacturer/serial`, the prefix of all topics of a vehicle.
pub open spec fn base_topic_of(
    interface: Seq<char>,
    version: Seq<char>,
    manufacturer: Seq<char>,
    serial_number: Seq<char>,
) -> Seq<char> {
    interface + seq!['/'] + version + seq!['/'] + manufacturer + seq!['/'] + serial_number
}

/// Appends `'/'` and `segment` to `s`.
fn push_segment(s: &mut String, segment: &str)
    ensures
        final(s)@ == old(s)@ + seq!['/'] + segment@,
{
    proof {
        reveal_strlit("/");
    }
    s.append("/");
    s.append(segment);
}

/// The prefix of all topics of a vehicle: interface, protocol version,
/// manufacturer and serial number, separated by `'/'`.
pub fn vda_base_topic(interface: &str, version: &str, manufacturer: &str, serial_number: &str) -> (r:
    String)
    ensures
        r@ == base_topic_of(interface@, version@, manufacturer@, serial_number@),
{
    let mut r = String::from_str(interface);
    push_segment(&mut r, version);
    push_segment(&mut r, manufacturer);
    push_segment(&mut r, serial_number);
    r
}

/// The topic `base/segment`.
pub fn sub_topic(base: &str, segment: &str) -> (r: String)
    ensures
        r@ == base@ + seq!['/'] + segment@,
{
    let mut r = String::from_str(base);
    push_segment(&mut r, segment);
    r
}

/// The topics a vehicle subscribes to: its order topic and its instant-actions topic.
pub fn subscription_topics(base: &str) -> (r: Vec<String>)
    ensures
        r@.len() == 2,
        r@[0]@ == base@ + seq!['/'] + "order"@,
        r@[1]@ == base@ + seq!['/'] + "instantActions"@,
{
    let mut r = Vec::new();
    r.push(sub_topic(base, "order"));
    r.push(sub_topic(base, "instantActions"));
    r
}

/// Every message on a topic that a vehicle subscribes to is classified by the
/// kind the topic was made for: orders arrive on `base/order`, instant actions
/// on `base/instantActions`, whatever the base.
pub proof fn lemma_subscribed_topics_are_classified(base: Seq<char>)
    ensures
        topic_kind_of(base + seq!['/'] + "order"@) == TopicKind::Order,
        topic_kind_of(base + seq!['/'] + "instantActions"@) == TopicKind::InstantActions,
{
    reveal_strlit("order");
    reveal_strlit("instantActions");
    lemma_topic_type_of_joined(base, "order"@);
    lemma_topic_type_of_joined(base, "instantActions"@);
    assert("order"@ != "instantActions"@);
}

}
