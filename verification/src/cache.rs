//! Keys of the product cache, and the sweep that drops all cached product
//! data: the key of the full list plus every `product:*` key that a cursor
//! scan finds, deleted in one call at the end.

use vstd::prelude::*;
use vstd::string::*;

use crate::error::AppError;
use crate::ids::{uuid_text, ProductId};

verus! {

/// How long cached product data lives, in seconds.
pub const CACHE_TTL_SECS: u64 = 300;

/// How many keys one scan step asks for.
pub const SCAN_BATCH_SIZE: u64 = 100;

/// The key of the cached list of all products.
pub fn all_products_key() -> (s: &'static str)
    ensures
        s@ == "products:all"@,
{
    "products:all"
}

/// The pattern that the keys of single cached products match.
pub fn product_key_pattern() -> (s: &'static str)
    ensures
        s@ == "product:*"@,
{
    "product:*"
}

/// The key of the cached product `id`.
pub open spec fn product_key_text(id: ProductId) -> Seq<char> {
    "product:"@ + uuid_text(id.0)
}

/// The key of the cached product `id`.
pub fn product_key(id: ProductId) -> (s: String)
    ensures
        s@ == product_key_text(id),
{
    let mut s = String::from_str("product:");
    let t = id.to_text();
    s.append(t.as_str());
    s
}

/// A reply to the action that the sweep asked for.
#[derive(Debug)]
pub enum SweepReply {
    /// Answer to `Scan`: the next cursor and the keys found.
    Scanned(Result<(u64, Vec<String>), AppError>),
    /// Answer to `Delete`.
    Deleted(Result<(), AppError>),
}

/// What the sweep asks the caller to do next.
#[derive(Debug)]
pub enum SweepAction {
    /// Scan for product keys from this cursor.
    Scan { cursor: u64 },
    /// Delete these keys.
    Delete(Vec<String>),
    /// The sweep is over, with this outcome.
    Finish(Result<(), AppError>),
}

/// Where the sweep stands.
#[derive(Debug)]
pub enum SweepFlow {
    /// Scanning, with the keys collected so far.
    Scanning { keys: Vec<String> },
    Deleting,
    Done,
}

/// One step of the sweep: `to` and `action` are what follows `from` on
/// `reply`. A scan's keys are added to the collected ones; a scan that
/// ends (cursor 0) asks to delete all collected keys; a failure ends the
/// sweep with the error.
pub open spec fn sweep_step(
    from: SweepFlow,
    reply: SweepReply,
    to: SweepFlow,
    action: SweepAction,
) -> bool {
    match from {
        SweepFlow::Scanning { keys } => match reply {
            SweepReply::Scanned(Ok((cursor, found))) => if cursor == 0 {
                &&& to is Deleting
                &&& action matches SweepAction::Delete(all) && all@ == keys@ + found@
            } else {
                &&& to matches SweepFlow::Scanning { keys: collected } && collected@ == keys@
                    + found@
                &&& action == SweepAction::Scan { cursor }
            },
            SweepReply::Scanned(Err(e)) => to is Done && action == SweepAction::Finish(Err(e)),
            _ => to is Done && action matches SweepAction::Finish(Err(AppError::Internal(_))),
        },
        SweepFlow::Deleting => match reply {
            SweepReply::Deleted(r) => to is Done && action == SweepAction::Finish(r),
            _ => to is Done && action matches SweepAction::Finish(Err(AppError::Internal(_))),
        },
        SweepFlow::Done => to is Done && action matches SweepAction::Finish(
            Err(AppError::Internal(_)),
        ),
    }
}

/// The keys collected while scanning start with the key of the full list.
pub open spec fn sweep_consistent(flow: SweepFlow) -> bool {
    flow matches SweepFlow::Scanning { keys } ==> keys@.len() >= 1 && keys@[0]@ == "products:all"@
}

fn unexpected() -> (e: AppError)
    ensures
        e is Internal,
        e.text() == "Unexpected reply for the current workflow step"@,
{
    AppError::Internal(String::from_str("Unexpected reply for the current workflow step"))
}

impl SweepFlow {
    /// Starts a sweep: the full list's key is collected, and the scan
    /// begins at cursor 0.
    pub fn begin() -> (res: (SweepFlow, SweepAction))
        ensures
            (res.0 matches SweepFlow::Scanning { keys } && keys@.len() == 1 && keys@[0]@
                == "products:all"@),
            res.1 == (SweepAction::Scan { cursor: 0 }),
    {
        let mut keys: Vec<String> = Vec::new();
        keys.push(String::from_str(all_products_key()));
        (SweepFlow::Scanning { keys }, SweepAction::Scan { cursor: 0 })
    }

    /// Takes the reply to the last action and gives the next state and
    /// action.
    pub fn step(self, reply: SweepReply) -> (res: (SweepFlow, SweepAction))
        ensures
            sweep_step(self, reply, res.0, res.1),
    {
        match self {
            SweepFlow::Scanning { keys } => match reply {
                SweepReply::Scanned(Ok((cursor, found))) => {
                    let mut collected = keys;
                    let mut found = found;
                    collected.append(&mut found);
                    if cursor == 0 {
                        (SweepFlow::Deleting, SweepAction::Delete(collected))
                    } else {
                        (SweepFlow::Scanning { keys: collected }, SweepAction::Scan { cursor })
                    }
                },
                SweepReply::Scanned(Err(e)) => (SweepFlow::Done, SweepAction::Finish(Err(e))),
                _ => (SweepFlow::Done, SweepAction::Finish(Err(unexpected()))),
            },
            SweepFlow::Deleting => match reply {
                SweepReply::Deleted(r) => (SweepFlow::Done, SweepAction::Finish(r)),
                _ => (SweepFlow::Done, SweepAction::Finish(Err(unexpected()))),
            },
            SweepFlow::Done => (SweepFlow::Done, SweepAction::Finish(Err(unexpected()))),
        }
    }
}

/// The sweep never loses the key of the full list: every state keeps it
/// first, so every deletion it asks for includes it and is never empty;
/// and collected keys are only ever added to.
pub proof fn law_sweep_keeps_collected_keys(
    from: SweepFlow,
    reply: SweepReply,
    to: SweepFlow,
    action: SweepAction,
)
    requires
        sweep_consistent(from),
        sweep_step(from, reply, to, action),
    ensures
        sweep_consistent(to),
        action matches SweepAction::Delete(all) ==> all@.len() >= 1 && all@[0]@
            == "products:all"@,
        from matches SweepFlow::Scanning { keys } ==> (to matches SweepFlow::Scanning {
            keys: collected,
        } ==> keys@.is_prefix_of(collected@)),
{
    if let SweepFlow::Scanning { keys } = from {
        if let SweepFlow::Scanning { keys: collected } = to {
            assert(keys@.is_prefix_of(collected@)) by {
                assert forall|i: int| 0 <= i < keys@.len() implies keys@[i] == collected@[i] by {}
            }
        }
    }
}

} // verus!
