//! The requests that change the registries, and what each change answers with.
//! Persisting the changed registry is left to the caller.

use vstd::prelude::*;
use crate::history::{GlobalHistory, HistoryError, HistoryItem, items_view, name_not_in};
use crate::nodes::{GlobalNodes, without_ids};

verus! {

/// Subscribe a source.
pub struct SubscribeAddReq {
    pub id: String,
}

/// Unsubscribe every source whose identifier is listed.
pub struct SubscribeDeleteReq {
    pub ids: Vec<String>,
}

/// Subscribe to history under `name`, at most one row every `interval` seconds.
pub struct HistorySubscribeAddReq {
    pub name: String,
    pub interval: i64,
}

/// Drop every history subscription whose name is listed.
pub struct HistorySubscribeDeleteReq {
    pub names: Vec<String>,
}

/// Look up one history subscription by name.
pub struct HistoryGetReq {
    pub name: String,
}

/// The history subscriptions.
pub struct GetHistorySubscribeRes {
    pub subscribe: Vec<HistoryItem>,
}

/// Adds the source and answers with the updated list.
pub fn post_subscribe_add_handler(nodes: &mut GlobalNodes, req: SubscribeAddReq) -> (r: Vec<String>)
    ensures
        final(nodes).ids() == old(nodes).ids().push(req.id@),
        r.deep_view() == final(nodes).ids(),
{
    nodes.add(req.id);
    nodes.nodes().nodes
}

/// Removes the listed sources and answers with the updated list.
pub fn post_subscribe_delete_handler(nodes: &mut GlobalNodes, req: SubscribeDeleteReq) -> (r: Vec<String>)
    ensures
        final(nodes).ids() == without_ids(old(nodes).ids(), req.ids.deep_view()),
        r.deep_view() == final(nodes).ids(),
{
    nodes.delete(&req.ids);
    nodes.nodes().nodes
}

/// Adds the subscription, stamped with the current time, and answers with the
/// updated list.
pub fn post_history_subscribe_add_handler(
    history: &mut GlobalHistory,
    req: HistorySubscribeAddReq,
) -> (r: Vec<HistoryItem>)
    requires
        old(history).wf(),
    ensures
        final(history).wf(),
        final(history).subs().drop_last() == old(history).subs(),
        final(history).subs().last().0 == req.name@,
        final(history).subs().last().1 == req.interval,
        final(history).stamps() == old(history).stamps().push(0),
        items_view(r@) == final(history).subs(),
{
    history.add(req.name, req.interval);
    history.get()
}

/// Removes the listed subscriptions with their timestamps and answers with the
/// updated list.
pub fn post_history_subscribe_delete_handler(
    history: &mut GlobalHistory,
    req: HistorySubscribeDeleteReq,
) -> (r: Vec<HistoryItem>)
    requires
        old(history).wf(),
    ensures
        final(history).wf(),
        final(history).entries() == old(history).entries().filter(name_not_in(req.names.deep_view())),
        items_view(r@) == final(history).subs(),
{
    history.delete(&req.names);
    history.get()
}

/// The first subscription with the name asked for.
pub fn get_history_handler(history: &GlobalHistory, req: HistoryGetReq) -> (r: Result<HistoryItem, HistoryError>)
    ensures
        match r {
            Ok(item) => exists|i: int| 0 <= i < history.subs().len()
                && history.subs()[i] == item@
                && item.name@ == req.name@
                && forall|j: int| 0 <= j < i ==> history.subs()[j].0 != req.name@,
            Err(e) => e == HistoryError::NotFound
                && forall|j: int| 0 <= j < history.subs().len() ==> history.subs()[j].0 != req.name@,
        },
{
    history.get_history(req.name)
}

/// The history subscriptions.
pub fn get_history_subscribe_handler(history: &GlobalHistory) -> (r: GetHistorySubscribeRes)
    ensures
        items_view(r.subscribe@) == history.subs(),
{
    GetHistorySubscribeRes { subscribe: history.get() }
}

} // verus!
