use vstd::prelude::*;

verus! {

/// Whether the member list already names this project.
pub open spec fn spec_has_member(members: Seq<Seq<char>>, project_path: Seq<char>) -> bool {
    exists|i: int| 0 <= i < members.len() && members[i] == project_path
}

/// Adds a project to a Cargo workspace's member list unless it is already
/// a member; says whether it was added. An existing membership leaves the
/// list untouched.
pub fn add_workspace_member(members: &mut Vec<String>, project_path: String) -> (added: bool)
    ensures
        added <==> !spec_has_member(old(members).deep_view(), project_path@),
        added ==> final(members).deep_view() =~= old(members).deep_view().push(project_path@),
        !added ==> *final(members) == *old(members),
{
    let mut i: usize = 0;
    while i < members.len()
        invariant
            i <= members@.len(),
            forall|j: int| 0 <= j < i ==> members.deep_view()[j] != project_path@,
        decreases members@.len() - i,
    {
        assert(members.deep_view()[i as int] == members@[i as int]@);
        if members[i] == project_path {
            assert(spec_has_member(members.deep_view(), project_path@)) by {
                assert(members.deep_view()[i as int] == project_path@);
            }
            return false;
        }
        i = i + 1;
    }
    members.push(project_path);
    assert(members.deep_view() =~= old(members).deep_view().push(project_path@));
    true
}

} // verus!
