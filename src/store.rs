use crate::error::ServiceError;
use vstd::prelude::*;

verus! {

/// What a key-value store holds: plain entries, and named sets of strings.
pub struct StoreModel {
    pub entries: Map<Seq<char>, Seq<char>>,
    pub sets: Map<Seq<char>, Set<Seq<char>>>,
}

/// One command for the store, to be run by whoever drives a flow.
pub enum Command {
    /// Read the entry under a key.
    Get(String),
    /// Write an entry.
    Put(String, String),
    /// Remove an entry.
    Delete(String),
    /// Add a member to a named set.
    AddMember(String, String),
    /// Remove a member from a named set.
    RemoveMember(String, String),
}

/// A command as the model of the store sees it.
pub enum CommandModel {
    Get(Seq<char>),
    Put(Seq<char>, Seq<char>),
    Delete(Seq<char>),
    AddMember(Seq<char>, Seq<char>),
    RemoveMember(Seq<char>, Seq<char>),
}

impl View for Command {
    type V = CommandModel;

    open spec fn view(&self) -> CommandModel {
        match self {
            Command::Get(k) => CommandModel::Get(k@),
            Command::Put(k, v) => CommandModel::Put(k@, v@),
            Command::Delete(k) => CommandModel::Delete(k@),
            Command::AddMember(s, m) => CommandModel::AddMember(s@, m@),
            Command::RemoveMember(s, m) => CommandModel::RemoveMember(s@, m@),
        }
    }
}

/// The store's answer to the last command.
pub enum Reply {
    /// The answer to a read: the entry, if there is one.
    Value(Option<String>),
    /// A write was carried out.
    Done,
    /// The store could not carry out the command.
    Failed,
}

/// What a flow asks for next: a command for the store, or its outcome.
pub enum Step<T> {
    Run(Command),
    Finish(Result<T, ServiceError>),
}

/// `step` asks the store to carry out `c`.
pub open spec fn runs<T>(step: Step<T>, c: CommandModel) -> bool {
    match step {
        Step::Run(x) => x@ == c,
        Step::Finish(_) => false,
    }
}

/// `step` ends the flow with the failure `e`.
pub open spec fn fails<T>(step: Step<T>, e: ServiceError) -> bool {
    match step {
        Step::Run(_) => false,
        Step::Finish(r) => r == Err::<T, ServiceError>(e),
    }
}

pub open spec fn lookup(s: StoreModel, k: Seq<char>) -> Option<Seq<char>> {
    if s.entries.contains_key(k) {
        Some(s.entries[k])
    } else {
        None
    }
}

pub open spec fn members(s: StoreModel, name: Seq<char>) -> Set<Seq<char>> {
    if s.sets.contains_key(name) {
        s.sets[name]
    } else {
        Set::empty()
    }
}

/// The store after it carries out `c`.
pub open spec fn apply(s: StoreModel, c: CommandModel) -> StoreModel {
    match c {
        CommandModel::Get(_) => s,
        CommandModel::Put(k, v) => StoreModel { entries: s.entries.insert(k, v), ..s },
        CommandModel::Delete(k) => StoreModel { entries: s.entries.remove(k), ..s },
        CommandModel::AddMember(n, m) => StoreModel {
            sets: s.sets.insert(n, members(s, n).insert(m)),
            ..s
        },
        CommandModel::RemoveMember(n, m) => StoreModel {
            sets: s.sets.insert(n, members(s, n).remove(m)),
            ..s
        },
    }
}

/// The store after it carries out each of `cs` in turn.
pub open spec fn apply_all(s: StoreModel, cs: Seq<CommandModel>) -> StoreModel
    decreases cs.len(),
{
    if cs.len() == 0 {
        s
    } else {
        apply_all(apply(s, cs[0]), cs.drop_first())
    }
}

/// A read as a store that does not fail answers it: by the entry under the key.
pub open spec fn read_reply(s: StoreModel, k: Seq<char>, r: Reply) -> bool {
    match r {
        Reply::Value(v) => match v {
            Some(x) => lookup(s, k) == Some(x@),
            None => lookup(s, k) is None,
        },
        _ => false,
    }
}

} // verus!
