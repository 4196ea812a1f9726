//! The subscription builder: the configured topics crossed with the resolved
//! symbols, topic by topic.

use vstd::prelude::*;
use vstd::string::*;
use crate::models::SubscribeMessage;

verus! {

/// Which symbols a session subscribes to.
#[derive(Debug, Clone, PartialEq)]
pub enum SubscribeSymbols {
    /// Every instrument that the exchange lists as active when the session
    /// subscribes.
    All,
    /// These symbols, as given.
    Custom(Vec<String>),
}

/// The topics of one template, one per symbol and in the symbols' order.
pub open spec fn topic_names(template: Seq<char>, symbols: Seq<String>) -> Seq<Seq<char>> {
    Seq::new(symbols.len(), |i: int| template + symbols[i]@)
}

/// Every topic to subscribe to: the templates in their order, and under each
/// the symbols in theirs.
pub open spec fn subscription_topics(templates: Seq<String>, symbols: Seq<String>) -> Seq<
    Seq<char>,
>
    decreases templates.len(),
{
    if templates.len() == 0 {
        Seq::empty()
    } else {
        subscription_topics(templates.drop_last(), symbols) + topic_names(
            templates.last()@,
            symbols,
        )
    }
}

/// The topics that a list of requests asks for.
pub open spec fn requested_topics(requests: Seq<SubscribeMessage>) -> Seq<Seq<char>> {
    Seq::new(requests.len(), |i: int| requests[i].topic@)
}

/// A request to subscribe to a public topic, with an acknowledgement asked
/// for.
pub open spec fn is_subscribe_request(request: SubscribeMessage) -> bool {
    &&& request.id == 1
    &&& request.msg_type@ == "subscribe"@
    &&& !request.private_channel
    &&& request.response
}

/// The request for one topic and one symbol.
pub fn subscribe_request(template: &str, symbol: &str) -> (request: SubscribeMessage)
    ensures
        is_subscribe_request(request),
        request.topic@ == template@ + symbol@,
{
    let mut topic = template.to_owned();
    topic.append(symbol);
    SubscribeMessage {
        id: 1,
        msg_type: "subscribe".to_owned(),
        topic,
        private_channel: false,
        response: true,
    }
}

/// Builds one request per topic template and symbol, in topic-major order.
pub fn build_subscriptions(templates: &Vec<String>, symbols: &Vec<String>) -> (requests: Vec<
    SubscribeMessage,
>)
    ensures
        requested_topics(requests@) == subscription_topics(templates@, symbols@),
        requests@.len() == templates@.len() * symbols@.len(),
        forall|i: int| 0 <= i < requests@.len() ==> is_subscribe_request(#[trigger] requests@[i]),
{
    let mut requests: Vec<SubscribeMessage> = Vec::new();
    let mut t: usize = 0;
    assert(templates@.take(0) =~= Seq::<String>::empty());
    assert(requested_topics(requests@) =~= subscription_topics(templates@.take(0), symbols@));
    while t < templates.len()
        invariant
            t <= templates.len(),
            requested_topics(requests@) == subscription_topics(templates@.take(t as int), symbols@),
            forall|i: int|
                0 <= i < requests@.len() ==> is_subscribe_request(#[trigger] requests@[i]),
        decreases templates.len() - t,
    {
        let ghost before = requests@;
        let mut s: usize = 0;
        while s < symbols.len()
            invariant
                t < templates.len(),
                s <= symbols.len(),
                requests@.len() == before.len() + s,
                requested_topics(requests@) == requested_topics(before) + topic_names(
                    templates@[t as int]@,
                    symbols@,
                ).take(s as int),
                forall|i: int|
                    0 <= i < requests@.len() ==> is_subscribe_request(#[trigger] requests@[i]),
            decreases symbols.len() - s,
        {
            let ghost sofar = requests@;
            requests.push(subscribe_request(templates[t].as_str(), symbols[s].as_str()));
            assert(requested_topics(requests@) =~= requested_topics(sofar).push(
                templates@[t as int]@ + symbols@[s as int]@,
            ));
            assert(topic_names(templates@[t as int]@, symbols@).take(s as int + 1)
                =~= topic_names(templates@[t as int]@, symbols@).take(s as int).push(
                templates@[t as int]@ + symbols@[s as int]@,
            ));
            s += 1;
        }
        assert(topic_names(templates@[t as int]@, symbols@).take(symbols@.len() as int)
            =~= topic_names(templates@[t as int]@, symbols@));
        assert(templates@.take(t as int + 1).drop_last() =~= templates@.take(t as int));
        assert(templates@.take(t as int + 1).last() == templates@[t as int]);
        t += 1;
    }
    assert(templates@.take(templates@.len() as int) =~= templates@);
    proof {
        lemma_subscription_count(templates@, symbols@);
        assert(requested_topics(requests@).len() == requests@.len());
    }
    requests
}

/// Topic-major, symbol-minor order: with `n` symbols, the request at
/// position `t * n + s` is the one for template `t` and symbol `s`, and
/// there are as many requests as pairs.
pub proof fn lemma_topic_major_order(templates: Seq<String>, symbols: Seq<String>, t: int, s: int)
    requires
        0 <= t < templates.len(),
        0 <= s < symbols.len(),
    ensures
        subscription_topics(templates, symbols).len() == templates.len() * symbols.len(),
        0 <= t * symbols.len() + s < subscription_topics(templates, symbols).len(),
        subscription_topics(templates, symbols)[t * symbols.len() + s] == templates[t]@
            + symbols[s]@,
    decreases templates.len(),
{
    let n = symbols.len() as int;
    let m = templates.len() as int;
    let rest = templates.drop_last();
    lemma_subscription_count(templates, symbols);
    lemma_subscription_count(rest, symbols);
    assert((m - 1) * n == m * n - n) by (nonlinear_arith);
    if t == m - 1 {
        assert(subscription_topics(templates, symbols)[(m - 1) * n + s] == topic_names(
            templates.last()@,
            symbols,
        )[s]);
    } else {
        lemma_topic_major_order(rest, symbols, t, s);
        assert(t * n + n <= (m - 1) * n) by (nonlinear_arith)
            requires
                0 <= t < m - 1,
                n >= 0,
        ;
        assert(rest[t] == templates[t]);
    }
}

/// There is one request per pair of a template and a symbol.
pub proof fn lemma_subscription_count(templates: Seq<String>, symbols: Seq<String>)
    ensures
        subscription_topics(templates, symbols).len() == templates.len() * symbols.len(),
    decreases templates.len(),
{
    let n = symbols.len() as int;
    let m = templates.len() as int;
    if m == 0 {
        assert(0 * n == 0) by (nonlinear_arith);
    } else {
        lemma_subscription_count(templates.drop_last(), symbols);
        assert((m - 1) * n + n == m * n) by (nonlinear_arith);
    }
}

} // verus!
