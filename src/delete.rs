use crate::error::ServiceError;
use crate::gate::{authorize, gate, opt_view};
use crate::record::{
    encode,
    encode_member,
    key_entry,
    key_entry_key,
    record_set,
    record_set_name,
    url_entry,
    url_entry_key,
};
use crate::store::{fails, runs, Command, CommandModel, Reply, Step};
use vstd::prelude::*;

verus! {

/// Where a delete flow stands: which reply it waits for, or that it is over.
#[derive(Clone, Copy, Debug, PartialEq, Eq, Structural)]
pub enum DeletePhase {
    /// Waits for the read of the target URL.
    ProbeUrl,
    /// Waits for the read of the stored edit key.
    ProbeKey,
    /// Waits for the removal of the edit key.
    DropKey,
    /// Waits for the removal of the target URL.
    DropUrl,
    /// Waits for the record to leave the record set.
    DropMember,
    Finished,
}

/// The removals that take a record out of the store, in the order a delete
/// flow issues them.
pub open spec fn delete_writes(id: Seq<char>, url: Seq<char>, key: Seq<char>) -> Seq<
    CommandModel,
> {
    seq![
        CommandModel::Delete(key_entry(id)),
        CommandModel::Delete(url_entry(id)),
        CommandModel::RemoveMember(record_set(), encode(id, url, key)),
    ]
}

/// The deletion of one record, one store command at a time.
pub struct DeleteFlow {
    pub phase: DeletePhase,
    pub id: String,
    /// The edit key that the caller supplied.
    pub key: String,
    /// The target URL as read from the store.
    pub url: String,
}

/// How a delete flow moves from `pre` to `post` on `reply`, asking for `step`.
pub open spec fn delete_resumed(
    pre: DeleteFlow,
    post: DeleteFlow,
    reply: Reply,
    step: Step<()>,
) -> bool {
    &&& post.id@ == pre.id@
    &&& post.key@ == pre.key@
    &&& match pre.phase {
        DeletePhase::ProbeUrl => match reply {
            Reply::Value(Some(u)) => post.phase == DeletePhase::ProbeKey && post.url@ == u@ && runs(
                step,
                CommandModel::Get(key_entry(pre.id@)),
            ),
            Reply::Value(None) => post.phase == DeletePhase::Finished && fails(
                step,
                ServiceError::UnknownId,
            ),
            _ => post.phase == DeletePhase::Finished && fails(step, ServiceError::Store),
        },
        DeletePhase::ProbeKey => match reply {
            Reply::Value(Some(k)) => if k@ == pre.key@ {
                post.phase == DeletePhase::DropKey && post.url@ == pre.url@ && runs(
                    step,
                    delete_writes(pre.id@, pre.url@, pre.key@)[0],
                )
            } else {
                post.phase == DeletePhase::Finished && fails(step, ServiceError::WrongKey)
            },
            Reply::Value(None) => post.phase == DeletePhase::Finished && fails(
                step,
                ServiceError::NoEditKey,
            ),
            _ => post.phase == DeletePhase::Finished && fails(step, ServiceError::Store),
        },
        DeletePhase::DropKey => match reply {
            Reply::Done => post.phase == DeletePhase::DropUrl && post.url@ == pre.url@ && runs(
                step,
                delete_writes(pre.id@, pre.url@, pre.key@)[1],
            ),
            _ => post.phase == DeletePhase::Finished && fails(step, ServiceError::Store),
        },
        DeletePhase::DropUrl => match reply {
            Reply::Done => post.phase == DeletePhase::DropMember && post.url@ == pre.url@ && runs(
                step,
                delete_writes(pre.id@, pre.url@, pre.key@)[2],
            ),
            _ => post.phase == DeletePhase::Finished && fails(step, ServiceError::Store),
        },
        DeletePhase::DropMember => match reply {
            Reply::Done => post.phase == DeletePhase::Finished && step == Step::<()>::Finish(
                Ok(()),
            ),
            _ => post.phase == DeletePhase::Finished && fails(step, ServiceError::Store),
        },
        DeletePhase::Finished => false,
    }
}

impl DeleteFlow {
    /// Begins the deletion of the record `id` with the edit key `key`. The
    /// password `provided` is first checked against the configured password
    /// `required`.
    pub fn start(required: &Option<String>, provided: &Option<String>, id: String, key: String) -> (r: (
        DeleteFlow,
        Step<()>,
    ))
        ensures
            r.0.id@ == id@,
            r.0.key@ == key@,
            gate(opt_view(*required), opt_view(*provided)) matches Err(e) ==> r.0.phase
                == DeletePhase::Finished && fails(r.1, e),
            gate(opt_view(*required), opt_view(*provided)) is Ok ==> r.0.phase
                == DeletePhase::ProbeUrl && runs(r.1, CommandModel::Get(url_entry(id@))),
    {
        let pass = authorize(required, provided);
        let probe = Command::Get(url_entry_key(id.as_str()));
        let phase = match pass {
            Ok(()) => DeletePhase::ProbeUrl,
            Err(_) => DeletePhase::Finished,
        };
        let flow = DeleteFlow { phase, id, key, url: String::new() };
        match pass {
            Ok(()) => (flow, Step::Run(probe)),
            Err(e) => (flow, Step::Finish(Err(e))),
        }
    }

    pub fn is_finished(&self) -> (r: bool)
        ensures
            r == (self.phase == DeletePhase::Finished),
    {
        self.phase == DeletePhase::Finished
    }

    /// Moves the flow on by the store's reply to the command it last asked for.
    pub fn resume(&mut self, reply: Reply) -> (step: Step<()>)
        requires
            old(self).phase != DeletePhase::Finished,
        ensures
            delete_resumed(*old(self), *final(self), reply, step),
    {
        match self.phase {
            DeletePhase::ProbeUrl => match reply {
                Reply::Value(Some(u)) => {
                    self.url = u;
                    self.phase = DeletePhase::ProbeKey;
                    Step::Run(Command::Get(key_entry_key(self.id.as_str())))
                },
                Reply::Value(None) => {
                    self.phase = DeletePhase::Finished;
                    Step::Finish(Err(ServiceError::UnknownId))
                },
                _ => {
                    self.phase = DeletePhase::Finished;
                    Step::Finish(Err(ServiceError::Store))
                },
            },
            DeletePhase::ProbeKey => match reply {
                Reply::Value(Some(k)) => {
                    if k == self.key {
                        self.phase = DeletePhase::DropKey;
                        Step::Run(Command::Delete(key_entry_key(self.id.as_str())))
                    } else {
                        self.phase = DeletePhase::Finished;
                        Step::Finish(Err(ServiceError::WrongKey))
                    }
                },
                Reply::Value(None) => {
                    self.phase = DeletePhase::Finished;
                    Step::Finish(Err(ServiceError::NoEditKey))
                },
                _ => {
                    self.phase = DeletePhase::Finished;
                    Step::Finish(Err(ServiceError::Store))
                },
            },
            DeletePhase::DropKey => match reply {
                Reply::Done => {
                    self.phase = DeletePhase::DropUrl;
                    Step::Run(Command::Delete(url_entry_key(self.id.as_str())))
                },
                _ => {
                    self.phase = DeletePhase::Finished;
                    Step::Finish(Err(ServiceError::Store))
                },
            },
            DeletePhase::DropUrl => match reply {
                Reply::Done => {
                    let member = encode_member(
                        self.id.as_str(),
                        self.url.as_str(),
                        self.key.as_str(),
                    );
                    self.phase = DeletePhase::DropMember;
                    Step::Run(Command::RemoveMember(record_set_name(), member))
                },
                _ => {
                    self.phase = DeletePhase::Finished;
                    Step::Finish(Err(ServiceError::Store))
                },
            },
            DeletePhase::DropMember => {
                self.phase = DeletePhase::Finished;
                match reply {
                    Reply::Done => Step::Finish(Ok(())),
                    _ => Step::Finish(Err(ServiceError::Store)),
                }
            },
            DeletePhase::Finished => Step::Finish(Err(ServiceError::Store)),
        }
    }
}

} // verus!
