//! The device registry: which instrument sessions are open, and each
//! instrument's bus address, clear/identify dialect and last-seen
//! identity.
//!
//! Opening is lazy and idempotent: the runner asks `is_open` first and
//! opens a session only when none exists, then marks it open; a later
//! check reuses the session.  The registry holds the decisions; the
//! unverified runner holds the session handles themselves.

use vstd::prelude::*;

verus! {

use crate::protocol::Role;
use crate::reply::spec_trim;

/// The open/identity state of the four instrument sessions.
pub struct Registry {
    pub laser_open: bool,
    pub driver_open: bool,
    pub meter_open: bool,
    pub analyzer_open: bool,
    pub laser_id: String,
    pub driver_id: String,
    pub meter_id: String,
    pub analyzer_id: String,
}

/// The fixed bus address of each role.
pub open spec fn spec_address(role: Role) -> Seq<char> {
    match role {
        Role::Driver => "USB::4883::32847::M01053290::0::INSTR"@,
        Role::Laser => "GPIB0::21::INSTR"@,
        Role::PowerMeter => "GPIB0::16::INSTR"@,
        Role::Analyzer => "GPIB0::23::INSTR"@,
    }
}

/// The clear-errors command of each role's dialect.
pub open spec fn spec_clear_cmd(role: Role) -> Seq<char> {
    match role {
        Role::Analyzer => "CLS;\n"@,
        _ => "*CLS\n"@,
    }
}

/// The identity query of each role's dialect.
pub open spec fn spec_identify_cmd(role: Role) -> Seq<char> {
    match role {
        Role::Analyzer => "ID?;\n"@,
        _ => "*IDN?\n"@,
    }
}

/// Builds the bus address of `role`.
pub fn resource_address(role: Role) -> (r: String)
    ensures
        r@ == spec_address(role),
{
    match role {
        Role::Driver => String::from_str("USB::4883::32847::M01053290::0::INSTR"),
        Role::Laser => String::from_str("GPIB0::21::INSTR"),
        Role::PowerMeter => String::from_str("GPIB0::16::INSTR"),
        Role::Analyzer => String::from_str("GPIB0::23::INSTR"),
    }
}

/// Builds the clear-errors command of `role`.
pub fn clear_cmd(role: Role) -> (r: String)
    ensures
        r@ == spec_clear_cmd(role),
{
    match role {
        Role::Analyzer => String::from_str("CLS;\n"),
        _ => String::from_str("*CLS\n"),
    }
}

/// Builds the identity query of `role`.
pub fn identify_cmd(role: Role) -> (r: String)
    ensures
        r@ == spec_identify_cmd(role),
{
    match role {
        Role::Analyzer => String::from_str("ID?;\n"),
        _ => String::from_str("*IDN?\n"),
    }
}

impl Registry {
    /// Whether `role`'s session is open.
    pub open spec fn spec_open(self, role: Role) -> bool {
        match role {
            Role::Laser => self.laser_open,
            Role::Driver => self.driver_open,
            Role::PowerMeter => self.meter_open,
            Role::Analyzer => self.analyzer_open,
        }
    }

    /// The last identity recorded for `role`.
    pub open spec fn spec_identity(self, role: Role) -> Seq<char> {
        match role {
            Role::Laser => self.laser_id@,
            Role::Driver => self.driver_id@,
            Role::PowerMeter => self.meter_id@,
            Role::Analyzer => self.analyzer_id@,
        }
    }

    /// A fresh registry: nothing open, no identity seen.
    pub fn new() -> (r: Self)
        ensures
            forall|role: Role| !r.spec_open(role),
            forall|role: Role| r.spec_identity(role) == Seq::<char>::empty(),
    {
        let r = Registry {
            laser_open: false,
            driver_open: false,
            meter_open: false,
            analyzer_open: false,
            laser_id: String::new(),
            driver_id: String::new(),
            meter_id: String::new(),
            analyzer_id: String::new(),
        };
        proof {
            assert forall|role: Role| !r.spec_open(role) by {}
            assert forall|role: Role| r.spec_identity(role) == Seq::<char>::empty() by {}
        }
        r
    }

    /// Whether a session for `role` already exists; a new one is opened
    /// only when this is false.
    pub fn is_open(&self, role: Role) -> (b: bool)
        ensures
            b == self.spec_open(role),
    {
        match role {
            Role::Laser => self.laser_open,
            Role::Driver => self.driver_open,
            Role::PowerMeter => self.meter_open,
            Role::Analyzer => self.analyzer_open,
        }
    }

    /// Records that `role`'s session is now open; no other role changes.
    pub fn mark_open(&mut self, role: Role)
        ensures
            final(self).spec_open(role),
            forall|o: Role| o != role
                ==> final(self).spec_open(o) == old(self).spec_open(o),
            forall|o: Role| final(self).spec_identity(o) == old(self).spec_identity(o),
    {
        match role {
            Role::Laser => self.laser_open = true,
            Role::Driver => self.driver_open = true,
            Role::PowerMeter => self.meter_open = true,
            Role::Analyzer => self.analyzer_open = true,
        }
    }

    /// Caches `role`'s identity: the reply line with its whitespace
    /// trimmed.  No other role's identity and nobody's session changes.
    pub fn record_identity(&mut self, role: Role, line: &str) -> (id: String)
        ensures
            id@ == spec_trim(line@),
            final(self).spec_identity(role) == spec_trim(line@),
            forall|o: Role| o != role
                ==> final(self).spec_identity(o) == old(self).spec_identity(o),
            forall|o: Role| final(self).spec_open(o) == old(self).spec_open(o),
    {
        let t = crate::reply::trim(line);
        let copy = t.clone();
        proof {
            assert(copy@ == t@);
        }
        match role {
            Role::Laser => self.laser_id = t,
            Role::Driver => self.driver_id = t,
            Role::PowerMeter => self.meter_id = t,
            Role::Analyzer => self.analyzer_id = t,
        }
        copy
    }

    /// The cached identity of `role`.
    pub fn identity(&self, role: Role) -> (r: &String)
        ensures
            r@ == self.spec_identity(role),
    {
        match role {
            Role::Laser => &self.laser_id,
            Role::Driver => &self.driver_id,
            Role::PowerMeter => &self.meter_id,
            Role::Analyzer => &self.analyzer_id,
        }
    }
}

} // verus!
