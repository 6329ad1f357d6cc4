use vstd::prelude::*;

use crate::account::Account;
use crate::templates::spec_eq_ignore_ascii_case;

verus! {

/// Binaries above this size draw a warning before deployment.
pub const MAX_WASM_SIZE: usize = 5_000_000;

/// One member of the project workspace: its path relative to the workspace
/// root and the package name its manifest declares.
pub struct WorkspaceCrate {
    pub member: String,
    pub name: String,
}

pub ghost struct WorkspaceCrateV {
    pub member: Seq<char>,
    pub name: Seq<char>,
}

impl View for WorkspaceCrate {
    type V = WorkspaceCrateV;

    open spec fn view(&self) -> WorkspaceCrateV {
        WorkspaceCrateV { member: self.member@, name: self.name@ }
    }
}

impl DeepView for WorkspaceCrate {
    type V = WorkspaceCrateV;

    open spec fn deep_view(&self) -> WorkspaceCrateV {
        self@
    }
}

/// The index of the last workspace member whose package name matches the
/// requested template ASCII-case-insensitively; nothing when no member
/// matches.
pub fn find_workspace_crate(crates: &Vec<WorkspaceCrate>, template: &str) -> (r: Option<usize>)
    ensures
        match r {
            Some(i) => i < crates@.len() && spec_eq_ignore_ascii_case(
                crates@[i as int]@.name,
                template@,
            ) && (forall|j: int|
                i < j < crates@.len() ==> !spec_eq_ignore_ascii_case(
                    #[trigger] crates@[j]@.name,
                    template@,
                )),
            None => forall|j: int|
                0 <= j < crates@.len() ==> !spec_eq_ignore_ascii_case(
                    #[trigger] crates@[j]@.name,
                    template@,
                ),
        },
{
    let mut i: usize = crates.len();
    while i > 0
        invariant
            i <= crates@.len(),
            forall|j: int|
                i <= j < crates@.len() ==> !spec_eq_ignore_ascii_case(
                    #[trigger] crates@[j]@.name,
                    template@,
                ),
        decreases i,
    {
        i = i - 1;
        if crate::templates::chars_eq_ignore_ascii_case(crates[i].name.as_str(), template) {
            return Some(i);
        }
    }
    None
}

/// The paying account a deployment uses, in the order the command looks:
/// the account given on the command line, else the project configuration's
/// default, else the CLI configuration's default. Nothing here means the
/// wallet's own default account is asked for next.
pub fn choose_account(
    args_account: Option<Account>,
    project_account: Option<Account>,
    config_account: Option<Account>,
) -> (r: Option<Account>)
    ensures
        args_account is Some ==> r == args_account,
        args_account is None && project_account is Some ==> r == project_account,
        args_account is None && project_account is None ==> r == config_account,
{
    match args_account {
        Some(a) => Some(a),
        None => match project_account {
            Some(a) => Some(a),
            None => config_account,
        },
    }
}

} // verus!
