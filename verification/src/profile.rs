//! Profiles, as far as automatic activation reads them.

use vstd::prelude::*;
use vstd::string::*;
use crate::actions::{Action, AutomationAction, NetworkAction, SystemAction};
use crate::rules::RuleSet;
use crate::schema::{current_schema_text, SchemaVersion};

verus! {

/// How a profile stands.
#[derive(Clone, Copy, Debug, PartialEq, Eq, Structural)]
pub enum ProfileStatus {
    /// Not in force.
    Inactive,
    /// In force.
    Active,
    /// Being applied.
    Applying,
    /// Applying it failed.
    Error,
}

impl Default for ProfileStatus {
    fn default() -> (r: Self)
        ensures
            r == ProfileStatus::Inactive,
    {
        ProfileStatus::Inactive
    }
}

impl ProfileStatus {
    /// The name under which the status is stored.
    pub open spec fn text(self) -> Seq<char> {
        match self {
            ProfileStatus::Inactive => "inactive"@,
            ProfileStatus::Active => "active"@,
            ProfileStatus::Applying => "applying"@,
            ProfileStatus::Error => "error"@,
        }
    }

    /// The name under which the status is stored.
    pub fn as_str(&self) -> (r: &'static str)
        ensures
            r@ == self.text(),
    {
        match self {
            ProfileStatus::Inactive => "inactive",
            ProfileStatus::Active => "active",
            ProfileStatus::Applying => "applying",
            ProfileStatus::Error => "error",
        }
    }
}

/// A group under which profiles are filed.
#[derive(Clone, Debug, PartialEq, Eq)]
pub struct ProfileGroup {
    /// Name of the group.
    pub name: String,
    /// What the group is for.
    pub description: Option<String>,
    /// Name of its icon.
    pub icon: Option<String>,
}

impl ProfileGroup {
    /// A group of the name `name`, without description or icon.
    pub fn new(name: &str) -> (r: Self)
        ensures
            r.name@ == name@,
            r.description is None,
            r.icon is None,
    {
        ProfileGroup { name: String::from_str(name), description: None, icon: None }
    }
}

/// What is kept about a profile besides what it does.
#[derive(Clone, Debug)]
pub struct ProfileMetadata {
    /// Unique id of the profile.
    pub id: String,
    /// Name shown to the user.
    pub name: String,
    /// What the profile is for.
    pub description: Option<String>,
    /// The group under which it is filed.
    pub group: Option<ProfileGroup>,
    /// Name of its icon.
    pub icon: Option<String>,
    /// When it was made, in milliseconds since 1970.
    pub created_at: i64,
    /// When it was last changed.
    pub updated_at: i64,
    /// When it was last applied.
    pub last_applied_at: Option<i64>,
    /// The schema version it was written in.
    pub schema_version: SchemaVersion,
}

impl ProfileMetadata {
    /// The metadata of a profile made at `now` under the id `id`.
    pub fn new(id: &str, name: &str, now: i64) -> (r: Self)
        ensures
            r.id@ == id@,
            r.name@ == name@,
            r.description is None,
            r.group is None,
            r.icon is None,
            r.created_at == now,
            r.updated_at == now,
            r.last_applied_at is None,
            r.schema_version@ == current_schema_text(),
    {
        ProfileMetadata {
            id: String::from_str(id),
            name: String::from_str(name),
            description: None,
            group: None,
            icon: None,
            created_at: now,
            updated_at: now,
            last_applied_at: None,
            schema_version: SchemaVersion::current(),
        }
    }
}

/// A profile: a named bundle of configuration that can be activated.
#[derive(Clone, Debug)]
pub struct Profile {
    /// Name, id and the like.
    pub metadata: ProfileMetadata,
    /// What it does to the network.
    pub network_actions: Vec<NetworkAction>,
    /// What it does to the system.
    pub system_actions: Vec<SystemAction>,
    /// The scripts and programs it runs.
    pub automation_actions: Vec<AutomationAction>,
    /// The rules under which the profile activates itself, if it has any.
    pub auto_switch_rules: Option<RuleSet>,
    /// Whether users without administrator rights may activate it.
    pub approved_for_users: bool,
    /// How the profile stands.
    pub status: ProfileStatus,
}

impl Profile {
    /// The number of actions of the profile.
    pub open spec fn actions_total(self) -> nat {
        self.network_actions@.len() + self.system_actions@.len() + self.automation_actions@.len()
    }

    /// Whether one of the automation actions is a script.
    pub open spec fn has_script(self) -> bool {
        exists|i: int|
            0 <= i < self.automation_actions@.len() && ((#[trigger] self.automation_actions@[i])
                is PreScript || self.automation_actions@[i] is PostScript)
    }

    /// An empty profile made at `now` under the id `id`.
    pub fn new(id: &str, name: &str, now: i64) -> (r: Self)
        ensures
            r.metadata.id@ == id@,
            r.metadata.name@ == name@,
            r.metadata.description is None,
            r.metadata.group is None,
            r.metadata.icon is None,
            r.metadata.created_at == now,
            r.metadata.updated_at == now,
            r.metadata.last_applied_at is None,
            r.metadata.schema_version@ == current_schema_text(),
            r.actions_total() == 0,
            r.auto_switch_rules is None,
            !r.approved_for_users,
            r.status == ProfileStatus::Inactive,
    {
        Profile {
            metadata: ProfileMetadata::new(id, name, now),
            network_actions: Vec::new(),
            system_actions: Vec::new(),
            automation_actions: Vec::new(),
            auto_switch_rules: None,
            approved_for_users: false,
            status: ProfileStatus::Inactive,
        }
    }

    /// The profile id.
    pub fn id(&self) -> (r: &str)
        ensures
            r@ == self.metadata.id@,
    {
        self.metadata.id.as_str()
    }

    /// The profile name.
    pub fn name(&self) -> (r: &str)
        ensures
            r@ == self.metadata.name@,
    {
        self.metadata.name.as_str()
    }

    /// All actions in one list: those on the network, then those on the
    /// system, then the automation.
    pub fn all_actions(&self) -> (r: Vec<Action>)
        ensures
            r@.len() == self.actions_total(),
            forall|i: int|
                0 <= i < r@.len() ==> if i < self.network_actions@.len() {
                    (#[trigger] r@[i]) is Network
                } else if i < self.network_actions@.len() + self.system_actions@.len() {
                    r@[i] is System
                } else {
                    r@[i] is Automation
                },
    {
        let mut out: Vec<Action> = Vec::new();
        let mut i: usize = 0;
        while i < self.network_actions.len()
            invariant
                i <= self.network_actions@.len(),
                out@.len() == i,
                forall|k: int| 0 <= k < out@.len() ==> (#[trigger] out@[k]) is Network,
            decreases self.network_actions@.len() - i,
        {
            out.push(Action::Network(self.network_actions[i].clone()));
            i += 1;
        }
        let mut j: usize = 0;
        while j < self.system_actions.len()
            invariant
                j <= self.system_actions@.len(),
                out@.len() == self.network_actions@.len() + j,
                forall|k: int|
                    0 <= k < out@.len() ==> if k < self.network_actions@.len() {
                        (#[trigger] out@[k]) is Network
                    } else {
                        out@[k] is System
                    },
            decreases self.system_actions@.len() - j,
        {
            out.push(Action::System(self.system_actions[j].clone()));
            j += 1;
        }
        let mut k: usize = 0;
        while k < self.automation_actions.len()
            invariant
                k <= self.automation_actions@.len(),
                out@.len() == self.network_actions@.len() + self.system_actions@.len() + k,
                forall|m: int|
                    0 <= m < out@.len() ==> if m < self.network_actions@.len() {
                        (#[trigger] out@[m]) is Network
                    } else if m < self.network_actions@.len() + self.system_actions@.len() {
                        out@[m] is System
                    } else {
                        out@[m] is Automation
                    },
            decreases self.automation_actions@.len() - k,
        {
            out.push(Action::Automation(self.automation_actions[k].clone()));
            k += 1;
        }
        out
    }

    /// The number of actions of the profile.
    pub fn action_count(&self) -> (r: usize)
        requires
            self.actions_total() <= usize::MAX,
        ensures
            r == self.actions_total(),
    {
        self.network_actions.len() + self.system_actions.len() + self.automation_actions.len()
    }

    /// Whether the profile has any action.
    pub fn has_actions(&self) -> (r: bool)
        ensures
            r == (self.actions_total() > 0),
    {
        self.network_actions.len() > 0 || self.system_actions.len() > 0
            || self.automation_actions.len() > 0
    }

    /// Whether the profile has rules with at least one condition.
    pub fn has_auto_switch(&self) -> (r: bool)
        ensures
            r == (self.auto_switch_rules matches Some(rules) && rules.conditions@.len() > 0),
    {
        match &self.auto_switch_rules {
            Some(rules) => !rules.is_empty(),
            None => false,
        }
    }

    /// Whether applying the profile needs elevated privileges: it acts on
    /// the network or the system, or it runs a script.
    pub fn requires_privilege(&self) -> (r: bool)
        ensures
            r == (self.network_actions@.len() > 0 || self.system_actions@.len() > 0
                || self.has_script()),
    {
        if self.network_actions.len() > 0 || self.system_actions.len() > 0 {
            return true;
        }
        let mut i: usize = 0;
        while i < self.automation_actions.len()
            invariant
                i <= self.automation_actions@.len(),
                forall|k: int|
                    0 <= k < i ==> !((#[trigger] self.automation_actions@[k]) is PreScript
                        || self.automation_actions@[k] is PostScript),
            decreases self.automation_actions@.len() - i,
        {
            if self.automation_actions[i].is_script() {
                return true;
            }
            i += 1;
        }
        false
    }

    /// Marks the profile as applied at `now`: it is active from then on.
    pub fn mark_applied(&mut self, now: i64)
        ensures
            final(self).metadata.last_applied_at == Some(now),
            final(self).status == ProfileStatus::Active,
            final(self).metadata.id == old(self).metadata.id,
            final(self).metadata.name == old(self).metadata.name,
            final(self).network_actions == old(self).network_actions,
            final(self).system_actions == old(self).system_actions,
            final(self).automation_actions == old(self).automation_actions,
            final(self).auto_switch_rules == old(self).auto_switch_rules,
    {
        self.metadata.last_applied_at = Some(now);
        self.status = ProfileStatus::Active;
    }
}

} // verus!
