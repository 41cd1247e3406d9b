use vstd::prelude::*;
use vstd::std_specs::convert::FromSpecImpl;
use crate::ipv4::Ipv4Addr;
use crate::priority::Priority;
use crate::priority::OWNER;

verus! {

/// The role a router is configured to play for one virtual router.
#[derive(Clone, Copy, Debug, PartialEq)]
pub enum Mode {
    /// The router owns the virtual addresses: it runs at the reserved top
    /// priority, accepts traffic for them and takes over whenever it is up.
    Owner,
    /// The router stands by for the owner.
    Backup(BackupMode),
}

/// What is configured of a router that stands by.
#[derive(Clone, Copy, Debug, PartialEq)]
pub struct BackupMode {
    /// Source address of the router's advertisements.
    pub primary_ip: Ipv4Addr,
    pub priority: Priority,
    /// Whether the router takes over from an active router of lower priority.
    pub preempt: bool,
    /// Whether the router, while active, accepts traffic addressed to the
    /// virtual addresses.
    pub accept: bool,
}

impl From<BackupMode> for Mode {
    fn from(value: BackupMode) -> (mode: Mode)
        ensures
            mode == Mode::Backup(value),
    {
        Mode::Backup(value)
    }
}

impl FromSpecImpl<BackupMode> for Mode {
    open spec fn obeys_from_spec() -> bool {
        true
    }

    open spec fn from_spec(value: BackupMode) -> Mode {
        Mode::Backup(value)
    }
}

impl BackupMode {
    /// A backup configuration is valid when its priority is.
    pub open spec fn wf(self) -> bool {
        self.priority.wf()
    }

    /// The default backup configuration for a router that advertises from
    /// `primary_ip`: default priority, preempting, not accepting.
    pub fn with_primary_ip(primary_ip: Ipv4Addr) -> (mode: Self)
        ensures
            mode.primary_ip == primary_ip,
            mode.priority.value() == crate::priority::DEFAULT,
            mode.preempt,
            !mode.accept,
            mode.wf(),
    {
        Self { primary_ip, priority: Priority::default(), preempt: true, accept: false }
    }

    /// The same configuration at another priority.
    pub fn with_priority(self, priority: Priority) -> (mode: Self)
        ensures
            mode == (Self { priority, ..self }),
    {
        Self { priority, ..self }
    }

    /// The same configuration with preemption switched on or off.
    pub fn with_preempt(self, preempt: bool) -> (mode: Self)
        ensures
            mode == (Self { preempt, ..self }),
    {
        Self { preempt, ..self }
    }

    /// The same configuration with accept mode switched on or off.
    pub fn with_accept(self, accept: bool) -> (mode: Self)
        ensures
            mode == (Self { accept, ..self }),
    {
        Self { accept, ..self }
    }
}

impl Mode {
    /// A mode is valid when its backup configuration, if it has one, is.
    pub open spec fn wf(self) -> bool {
        match self {
            Mode::Owner => true,
            Mode::Backup(backup) => backup.wf(),
        }
    }

    /// The priority the router advertises.
    pub open spec fn spec_priority(self) -> u8 {
        match self {
            Mode::Owner => OWNER,
            Mode::Backup(backup) => backup.priority.value(),
        }
    }

    /// Whether the router, while active, accepts traffic addressed to the
    /// virtual addresses.
    pub open spec fn spec_should_accept(self) -> bool {
        match self {
            Mode::Owner => true,
            Mode::Backup(backup) => backup.accept,
        }
    }

    /// Whether the router takes over from an active router of lower
    /// priority.
    pub open spec fn spec_should_preempt(self) -> bool {
        match self {
            Mode::Owner => true,
            Mode::Backup(backup) => backup.preempt,
        }
    }

    /// The top priority belongs to the owner and to nobody else; the owner
    /// accepts and preempts whatever else is configured.
    pub proof fn lemma_owner(self)
        requires
            self.wf(),
        ensures
            self.spec_priority() == OWNER <==> self is Owner,
            1 <= self.spec_priority() <= 255,
            self is Owner ==> self.spec_should_accept() && self.spec_should_preempt(),
    {
    }

    /// The priority the router advertises: 255 for the owner, the configured
    /// one for a backup.
    pub fn priority(&self) -> (priority: u8)
        ensures
            priority == self.spec_priority(),
            priority >= 1,
            priority == OWNER <==> self is Owner,
            self.wf(),
    {
        match self {
            Mode::Owner => OWNER,
            Mode::Backup(backup) => backup.priority.get(),
        }
    }

    /// Whether the router, while active, accepts traffic addressed to the
    /// virtual addresses: the owner always does.
    pub fn should_accept(&self) -> (accept: bool)
        ensures
            accept == self.spec_should_accept(),
    {
        match self {
            Mode::Owner => true,
            Mode::Backup(backup) => backup.accept,
        }
    }

    /// Whether the router takes over from an active router of lower
    /// priority: the owner always does.
    pub fn should_preempt(&self) -> (preempt: bool)
        ensures
            preempt == self.spec_should_preempt(),
    {
        match self {
            Mode::Owner => true,
            Mode::Backup(backup) => backup.preempt,
        }
    }
}

} // verus!
