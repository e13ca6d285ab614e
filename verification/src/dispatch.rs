//! Routing of decoded commands to the registered applications.
//!
//! Each application declares, for each protocol family it takes part in, the
//! command codes it serves. A command goes to the first application in
//! registration order that serves it, and to no other.

use vstd::prelude::*;

verus! {

/// A family of commands that arrives over one USB class.
#[derive(Clone, Copy, Debug, PartialEq, Eq, Structural)]
pub enum Protocol {
    /// The HID-based command protocol.
    Ctaphid,
    /// The smart-card protocol.
    Ccid,
}

/// Why a command got no response data.
#[derive(Clone, Copy, Debug, PartialEq, Eq, Structural)]
pub enum AppError {
    /// No registered application serves the command.
    UnsupportedCommand,
    /// The application that serves the command failed, with a code of its
    /// protocol.
    Failed(u8),
}

/// What one application serves: for each protocol family the command codes,
/// or `None` where it does not take part in the family.
pub struct Capabilities {
    pub ctaphid: Option<Vec<u8>>,
    pub ccid: Option<Vec<u8>>,
}

impl Capabilities {
    /// The command codes served in a protocol family.
    pub open spec fn commands(&self, protocol: Protocol) -> Option<Seq<u8>> {
        match protocol {
            Protocol::Ctaphid => match self.ctaphid {
                Some(codes) => Some(codes@),
                None => None,
            },
            Protocol::Ccid => match self.ccid {
                Some(codes) => Some(codes@),
                None => None,
            },
        }
    }

    /// Whether the application takes part in a protocol family.
    pub open spec fn provides(&self, protocol: Protocol) -> bool {
        self.commands(protocol) is Some
    }

    /// Whether the application serves a command of a protocol family.
    pub open spec fn serves(&self, protocol: Protocol, command: u8) -> bool {
        match self.commands(protocol) {
            Some(codes) => codes.contains(command),
            None => false,
        }
    }

    /// Whether the application takes part in a protocol family.
    pub fn has_capability(&self, protocol: Protocol) -> (provided: bool)
        ensures
            provided == self.provides(protocol),
    {
        match protocol {
            Protocol::Ctaphid => self.ctaphid.is_some(),
            Protocol::Ccid => self.ccid.is_some(),
        }
    }

    /// Whether the application serves a command of a protocol family.
    pub fn declares(&self, protocol: Protocol, command: u8) -> (served: bool)
        ensures
            served == self.serves(protocol, command),
    {
        let codes = match protocol {
            Protocol::Ctaphid => &self.ctaphid,
            Protocol::Ccid => &self.ccid,
        };
        match codes {
            Some(codes) => {
                let mut at: usize = 0;
                while at < codes.len()
                    invariant
                        at <= codes.len(),
                        self.commands(protocol) == Some(codes@),
                        forall|k: int| 0 <= k < at ==> codes@[k] != command,
                    decreases codes.len() - at,
                {
                    if codes[at] == command {
                        assert(codes@[at as int] == command);
                        return true;
                    }
                    at += 1;
                }
                false
            },
            None => false,
        }
    }
}

/// Whether `index` is the application a command goes to: the first in
/// registration order that serves it.
pub open spec fn is_first_match(
    apps: Seq<Capabilities>,
    protocol: Protocol,
    command: u8,
    index: int,
) -> bool {
    &&& 0 <= index < apps.len()
    &&& apps[index].serves(protocol, command)
    &&& forall|earlier: int| 0 <= earlier < index ==> !apps[earlier].serves(protocol, command)
}

/// Whether no registered application serves a command.
pub open spec fn is_unsupported(apps: Seq<Capabilities>, protocol: Protocol, command: u8) -> bool {
    forall|index: int| 0 <= index < apps.len() ==> !apps[index].serves(protocol, command)
}

/// The applications of a device, in the order of their registration.
pub struct Registry {
    apps: Vec<Capabilities>,
}

impl View for Registry {
    type V = Seq<Capabilities>;

    closed spec fn view(&self) -> Seq<Capabilities> {
        self.apps@
    }
}

impl Registry {
    /// A registry without applications.
    pub fn new() -> (registry: Self)
        ensures
            registry@ == Seq::<Capabilities>::empty(),
    {
        Registry { apps: Vec::new() }
    }

    /// The number of registered applications.
    pub fn len(&self) -> (count: usize)
        ensures
            count == self@.len(),
    {
        self.apps.len()
    }

    /// Registers an application behind those already there, and returns its
    /// index.
    pub fn register(&mut self, app: Capabilities) -> (index: usize)
        ensures
            final(self)@ == old(self)@.push(app),
            index == old(self)@.len(),
    {
        let index = self.apps.len();
        self.apps.push(app);
        index
    }

    /// The applications that take part in a protocol family, as indices in
    /// registration order: the list handed to the family's dispatcher.
    pub fn handlers(&self, protocol: Protocol) -> (list: Vec<usize>)
        ensures
            forall|k: int| 0 <= k < list@.len() ==> 0 <= #[trigger] list@[k] < self@.len()
                && self@[list@[k] as int].provides(protocol),
            forall|k: int, l: int| 0 <= k < l < list@.len() ==> list@[k] < list@[l],
            forall|index: int| 0 <= index < self@.len() && (#[trigger] self@[index]).provides(protocol)
                ==> list@.contains(index as usize),
    {
        let mut list: Vec<usize> = Vec::new();
        let mut at: usize = 0;
        while at < self.apps.len()
            invariant
                at <= self.apps.len(),
                forall|k: int| 0 <= k < list@.len() ==> 0 <= #[trigger] list@[k] < at
                    && self@[list@[k] as int].provides(protocol),
                forall|k: int, l: int| 0 <= k < l < list@.len() ==> list@[k] < list@[l],
                forall|index: int| 0 <= index < at && (#[trigger] self@[index]).provides(protocol)
                    ==> list@.contains(index as usize),
            decreases self.apps.len() - at,
        {
            if self.apps[at].has_capability(protocol) {
                let ghost before = list@;
                list.push(at);
                assert(list@[list@.len() - 1] == at);
                assert forall|index: int| 0 <= index < at + 1 && (#[trigger] self@[index]).provides(
                    protocol,
                ) implies list@.contains(index as usize) by {
                    if index < at {
                        assert(before.contains(index as usize));
                        let k = choose|k: int| 0 <= k < before.len() && before[k] == index as usize;
                        assert(list@[k] == index as usize);
                    }
                }
            }
            at += 1;
        }
        list
    }

    /// The application a command goes to: the first in registration order
    /// that serves it. Where none does, the command is unsupported.
    pub fn select(&self, protocol: Protocol, command: u8) -> (target: Result<usize, AppError>)
        ensures
            match target {
                Ok(index) => is_first_match(self@, protocol, command, index as int),
                Err(error) => error == AppError::UnsupportedCommand && is_unsupported(
                    self@,
                    protocol,
                    command,
                ),
            },
    {
        let mut at: usize = 0;
        while at < self.apps.len()
            invariant
                at <= self.apps.len(),
                forall|earlier: int| 0 <= earlier < at ==> !self@[earlier].serves(protocol, command),
            decreases self.apps.len() - at,
        {
            if self.apps[at].declares(protocol, command) {
                return Ok(at);
            }
            at += 1;
        }
        Err(AppError::UnsupportedCommand)
    }

    /// Routes one command. `call` runs the application with the given index
    /// on the command and the request and returns its response. It is
    /// invoked once, for the application `select` names; for an unsupported
    /// command it is not invoked at all.
    pub fn dispatch<H: FnOnce(usize, u8, &[u8]) -> Result<Vec<u8>, AppError>>(
        &self,
        protocol: Protocol,
        command: u8,
        request: &[u8],
        call: H,
    ) -> (response: Result<Vec<u8>, AppError>)
        requires
            forall|index: usize|
                is_first_match(self@, protocol, command, index as int) ==> call.requires(
                    (index, command, request),
                ),
        ensures
            is_unsupported(self@, protocol, command) ==> response == Err::<Vec<u8>, AppError>(
                AppError::UnsupportedCommand,
            ),
            forall|index: usize|
                is_first_match(self@, protocol, command, index as int) ==> call.ensures(
                    (index, command, request),
                    response,
                ),
    {
        match self.select(protocol, command) {
            Ok(index) => {
                proof {
                    lemma_first_match_is_unique(self@, protocol, command);
                }
                call(index, command, request)
            },
            Err(error) => Err(error),
        }
    }
}

/// A command goes to exactly one place: either no application serves it, or
/// exactly one application is its first match.
pub proof fn lemma_first_match_is_unique(apps: Seq<Capabilities>, protocol: Protocol, command: u8)
    ensures
        is_unsupported(apps, protocol, command) <==> !exists|index: int|
            is_first_match(apps, protocol, command, index),
        forall|a: int, b: int|
            is_first_match(apps, protocol, command, a) && is_first_match(apps, protocol, command, b)
                ==> a == b,
{
    if !is_unsupported(apps, protocol, command) {
        lemma_some_first_match(apps, protocol, command, apps.len() as int);
    }
}

proof fn lemma_some_first_match(apps: Seq<Capabilities>, protocol: Protocol, command: u8, end: int)
    requires
        0 <= end <= apps.len(),
        exists|index: int| 0 <= index < end && apps[index].serves(protocol, command),
    ensures
        exists|index: int| is_first_match(apps, protocol, command, index),
    decreases end,
{
    let last = end - 1;
    if exists|index: int| 0 <= index < last && apps[index].serves(protocol, command) {
        lemma_some_first_match(apps, protocol, command, last);
    } else {
        assert(is_first_match(apps, protocol, command, last));
    }
}

} // verus!
