use crate::error::ServiceError;
use crate::gate::{authorize, gate, opt_view};
use crate::record::{
    check_id,
    encode,
    encode_member,
    id_verdict,
    key_entry,
    key_entry_key,
    record_set,
    record_set_name,
    url_entry,
    url_entry_key,
};
use crate::store::{fails, runs, Command, CommandModel, Reply, Step};
use crate::token::{generate_random_string, is_token, lemma_token_allowed};
use vstd::prelude::*;

verus! {

/// Where a create flow stands: which reply it waits for, or that it is over.
#[derive(Clone, Copy, Debug, PartialEq, Eq, Structural)]
pub enum CreatePhase {
    /// Waits for the read of the entry under a generated candidate.
    ProbeCandidate,
    /// Waits for the read of the entry under the chosen identifier.
    ProbeId,
    /// Waits for the write of the target URL.
    WriteUrl,
    /// Waits for the write of the edit key.
    WriteKey,
    /// Waits for the record to join the record set.
    AddMember,
    Finished,
}

/// What a successful create hands back: the identifier and its edit key.
#[derive(Clone, Debug)]
pub struct Created {
    pub id: String,
    pub key: String,
}

/// The writes that store a record, in the order a create flow issues them.
pub open spec fn create_writes(id: Seq<char>, url: Seq<char>, key: Seq<char>) -> Seq<
    CommandModel,
> {
    seq![
        CommandModel::Put(url_entry(id), url),
        CommandModel::Put(key_entry(id), key),
        CommandModel::AddMember(record_set(), encode(id, url, key)),
    ]
}

/// The creation of one record, one store command at a time.
pub struct CreateFlow {
    pub phase: CreatePhase,
    pub id: String,
    pub url: String,
    pub key: String,
    /// The identifier came from the generator rather than from the caller.
    pub generated: bool,
}

/// `step` ends the flow with the record `(id, key)`.
pub open spec fn creates(step: Step<Created>, id: Seq<char>, key: Seq<char>) -> bool {
    match step {
        Step::Finish(Ok(c)) => c.id@ == id && c.key@ == key,
        _ => false,
    }
}

/// How a create flow moves from `pre` to `post` on `reply`, asking for `step`.
pub open spec fn create_resumed(
    pre: CreateFlow,
    post: CreateFlow,
    reply: Reply,
    step: Step<Created>,
) -> bool {
    &&& post.url@ == pre.url@
    &&& post.generated == pre.generated
    &&& match pre.phase {
        CreatePhase::ProbeCandidate => match reply {
            Reply::Value(Some(_)) => post.phase == CreatePhase::ProbeCandidate && is_token(
                post.id@,
            ) && runs(step, CommandModel::Get(url_entry(post.id@))),
            Reply::Value(None) => post.id@ == pre.id@ && match id_verdict(pre.id@) {
                Err(e) => post.phase == CreatePhase::Finished && fails(step, e),
                Ok(_) => post.phase == CreatePhase::ProbeId && runs(
                    step,
                    CommandModel::Get(url_entry(pre.id@)),
                ),
            },
            _ => post.phase == CreatePhase::Finished && fails(step, ServiceError::Store),
        },
        CreatePhase::ProbeId => match reply {
            Reply::Value(Some(_)) => post.phase == CreatePhase::Finished && fails(
                step,
                ServiceError::IdInUse,
            ),
            Reply::Value(None) => post.phase == CreatePhase::WriteUrl && post.id@ == pre.id@
                && runs(step, CommandModel::Put(url_entry(pre.id@), pre.url@)),
            _ => post.phase == CreatePhase::Finished && fails(step, ServiceError::Store),
        },
        CreatePhase::WriteUrl => match reply {
            Reply::Done => post.phase == CreatePhase::WriteKey && post.id@ == pre.id@ && is_token(
                post.key@,
            ) && runs(step, create_writes(pre.id@, pre.url@, post.key@)[1]),
            _ => post.phase == CreatePhase::Finished && fails(step, ServiceError::Store),
        },
        CreatePhase::WriteKey => match reply {
            Reply::Done => post.phase == CreatePhase::AddMember && post.id@ == pre.id@ && post.key@
                == pre.key@ && runs(step, create_writes(pre.id@, pre.url@, pre.key@)[2]),
            _ => post.phase == CreatePhase::Finished && fails(step, ServiceError::Store),
        },
        CreatePhase::AddMember => match reply {
            Reply::Done => post.phase == CreatePhase::Finished && creates(step, pre.id@, pre.key@),
            _ => post.phase == CreatePhase::Finished && fails(step, ServiceError::Store),
        },
        CreatePhase::Finished => false,
    }
}

impl CreateFlow {
    pub open spec fn wf(&self) -> bool {
        &&& self.generated ==> is_token(self.id@)
        &&& self.phase == CreatePhase::ProbeCandidate ==> self.generated
        &&& (self.phase == CreatePhase::WriteKey || self.phase == CreatePhase::AddMember)
            ==> is_token(self.key@)
    }

    /// Begins the creation of a record for `url`, under `requested` or
    /// under a random identifier. The password `provided` is first checked
    /// against the configured password `required`.
    pub fn start(
        required: &Option<String>,
        provided: &Option<String>,
        requested: Option<String>,
        url: String,
    ) -> (r: (CreateFlow, Step<Created>))
        ensures
            r.0.wf(),
            r.0.url@ == url@,
            gate(opt_view(*required), opt_view(*provided)) matches Err(e) ==> r.0.phase
                == CreatePhase::Finished && fails(r.1, e),
            gate(opt_view(*required), opt_view(*provided)) is Ok && requested is None ==> r.0.phase
                == CreatePhase::ProbeCandidate && r.0.generated && is_token(r.0.id@) && runs(
                r.1,
                CommandModel::Get(url_entry(r.0.id@)),
            ),
            gate(opt_view(*required), opt_view(*provided)) is Ok && requested is Some ==> {
                &&& !r.0.generated
                &&& r.0.id@ == requested->0@
                &&& match id_verdict(requested->0@) {
                    Err(e) => r.0.phase == CreatePhase::Finished && fails(r.1, e),
                    Ok(_) => r.0.phase == CreatePhase::ProbeId && runs(
                        r.1,
                        CommandModel::Get(url_entry(r.0.id@)),
                    ),
                }
            },
    {
        let pass = authorize(required, provided);
        match pass {
            Err(e) => {
                let flow = CreateFlow {
                    phase: CreatePhase::Finished,
                    id: String::new(),
                    url,
                    key: String::new(),
                    generated: false,
                };
                (flow, Step::Finish(Err(e)))
            },
            Ok(()) => match requested {
                None => {
                    let id = generate_random_string();
                    let probe = Command::Get(url_entry_key(id.as_str()));
                    let flow = CreateFlow {
                        phase: CreatePhase::ProbeCandidate,
                        id,
                        url,
                        key: String::new(),
                        generated: true,
                    };
                    (flow, Step::Run(probe))
                },
                Some(id) => {
                    let verdict = check_id(id.as_str());
                    let probe = Command::Get(url_entry_key(id.as_str()));
                    let phase = match verdict {
                        Ok(()) => CreatePhase::ProbeId,
                        Err(_) => CreatePhase::Finished,
                    };
                    let flow = CreateFlow { phase, id, url, key: String::new(), generated: false };
                    match verdict {
                        Ok(()) => (flow, Step::Run(probe)),
                        Err(e) => (flow, Step::Finish(Err(e))),
                    }
                },
            },
        }
    }

    pub fn is_finished(&self) -> (r: bool)
        ensures
            r == (self.phase == CreatePhase::Finished),
    {
        self.phase == CreatePhase::Finished
    }

    /// Moves the flow on by the store's reply to the command it last asked for.
    pub fn resume(&mut self, reply: Reply) -> (step: Step<Created>)
        requires
            old(self).wf(),
            old(self).phase != CreatePhase::Finished,
        ensures
            final(self).wf(),
            create_resumed(*old(self), *final(self), reply, step),
    {
        match self.phase {
            CreatePhase::ProbeCandidate => match reply {
                Reply::Value(Some(_)) => {
                    let id = generate_random_string();
                    let probe = Command::Get(url_entry_key(id.as_str()));
                    self.id = id;
                    Step::Run(probe)
                },
                Reply::Value(None) => {
                    proof {
                        lemma_token_allowed(self.id@);
                    }
                    match check_id(self.id.as_str()) {
                        Ok(()) => {
                            self.phase = CreatePhase::ProbeId;
                            Step::Run(Command::Get(url_entry_key(self.id.as_str())))
                        },
                        Err(e) => {
                            self.phase = CreatePhase::Finished;
                            Step::Finish(Err(e))
                        },
                    }
                },
                _ => {
                    self.phase = CreatePhase::Finished;
                    Step::Finish(Err(ServiceError::Store))
                },
            },
            CreatePhase::ProbeId => match reply {
                Reply::Value(Some(_)) => {
                    self.phase = CreatePhase::Finished;
                    Step::Finish(Err(ServiceError::IdInUse))
                },
                Reply::Value(None) => {
                    self.phase = CreatePhase::WriteUrl;
                    Step::Run(Command::Put(url_entry_key(self.id.as_str()), self.url.clone()))
                },
                _ => {
                    self.phase = CreatePhase::Finished;
                    Step::Finish(Err(ServiceError::Store))
                },
            },
            CreatePhase::WriteUrl => match reply {
                Reply::Done => {
                    let key = generate_random_string();
                    let write = Command::Put(key_entry_key(self.id.as_str()), key.clone());
                    self.key = key;
                    self.phase = CreatePhase::WriteKey;
                    Step::Run(write)
                },
                _ => {
                    self.phase = CreatePhase::Finished;
                    Step::Finish(Err(ServiceError::Store))
                },
            },
            CreatePhase::WriteKey => match reply {
                Reply::Done => {
                    let member = encode_member(
                        self.id.as_str(),
                        self.url.as_str(),
                        self.key.as_str(),
                    );
                    self.phase = CreatePhase::AddMember;
                    Step::Run(Command::AddMember(record_set_name(), member))
                },
                _ => {
                    self.phase = CreatePhase::Finished;
                    Step::Finish(Err(ServiceError::Store))
                },
            },
            CreatePhase::AddMember => {
                self.phase = CreatePhase::Finished;
                match reply {
                    Reply::Done => Step::Finish(
                        Ok(Created { id: self.id.clone(), key: self.key.clone() }),
                    ),
                    _ => Step::Finish(Err(ServiceError::Store)),
                }
            },
            CreatePhase::Finished => Step::Finish(Err(ServiceError::Store)),
        }
    }
}

} // verus!
