//! The rules of groups: who joins a new group and in which role, who may
//! change a group, how many members it may have, and that its owner stays.
use vstd::prelude::*;
use crate::refusal::Refusal;

verus! {

/// The members a group holds when none is given.
pub const DEFAULT_MAX_MEMBERS: i32 = 100;

/// A member's role in a group.
#[derive(Debug, Clone, Copy, PartialEq, Eq, Structural)]
pub enum GroupRole {
    Owner,
    Admin,
    Member,
}

/// The members of a new group created by `creator` with the requested
/// `members`: the creator as owner, then each requested member other than the
/// creator, in the order requested, as a plain member.
pub open spec fn initial_members_spec(creator: u128, members: Seq<u128>) -> Seq<(u128, GroupRole)> {
    seq![(creator, GroupRole::Owner)] + members.filter(other_than(creator)).map_values(as_member())
}

/// Whether a user is someone other than `creator`.
pub open spec fn other_than(creator: u128) -> spec_fn(u128) -> bool {
    |m: u128| m != creator
}

/// A user with the plain member role.
pub open spec fn as_member() -> spec_fn(u128) -> (u128, GroupRole) {
    |m: u128| (m, GroupRole::Member)
}

/// The members a new group starts with.
pub fn initial_members(creator: u128, members: &Vec<u128>) -> (r: Vec<(u128, GroupRole)>)
    ensures
        r@ == initial_members_spec(creator, members@),
{
    let ghost pred = other_than(creator);
    let ghost role = as_member();
    let mut r: Vec<(u128, GroupRole)> = vec![(creator, GroupRole::Owner)];
    let mut i: usize = 0;
    while i < members.len()
        invariant
            i <= members.len(),
            pred == other_than(creator),
            role == as_member(),
            r@ == seq![(creator, GroupRole::Owner)] + members@.take(i as int).filter(pred).map_values(role),
        decreases members.len() - i,
    {
        let m = members[i];
        proof {
            reveal(Seq::filter);
            assert(members@.take(i + 1).drop_last() =~= members@.take(i as int));
        }
        if m != creator {
            r.push((m, GroupRole::Member));
            assert(members@.take(i + 1).filter(pred) == members@.take(i as int).filter(pred).push(m));
            assert(r@ =~= seq![(creator, GroupRole::Owner)] + members@.take(i + 1).filter(
                pred,
            ).map_values(role));
        } else {
            assert(members@.take(i + 1).filter(pred) == members@.take(i as int).filter(pred));
        }
        i = i + 1;
    }
    assert(members@.take(i as int) =~= members@);
    r
}

/// A new group has exactly one owner, its creator.
pub proof fn lemma_one_owner(creator: u128, members: Seq<u128>, i: int)
    requires
        0 <= i < initial_members_spec(creator, members).len(),
        initial_members_spec(creator, members)[i].1 == GroupRole::Owner,
    ensures
        i == 0,
        initial_members_spec(creator, members)[i].0 == creator,
{
    if i > 0 {
        let rest = members.filter(other_than(creator));
        assert(initial_members_spec(creator, members)[i] == (rest[i - 1], GroupRole::Member));
    }
}

/// The most members a new group may hold: as requested, or the default.
pub fn group_capacity(requested: Option<i32>) -> (n: i32)
    ensures
        n == match requested {
            Some(m) => m,
            None => DEFAULT_MAX_MEMBERS,
        },
{
    match requested {
        Some(m) => m,
        None => DEFAULT_MAX_MEMBERS,
    }
}

/// A change that only a group's admins and owner may make.
#[derive(Debug, Clone, Copy, PartialEq, Eq, Structural)]
pub enum AdminChange {
    UpdateSettings,
    AddMember,
    RemoveMember,
}

/// The refusal of an admin-only change to one who is neither admin nor owner.
pub open spec fn admin_refusal(change: AdminChange) -> Refusal {
    match change {
        AdminChange::UpdateSettings => Refusal::OnlyAdminsUpdate,
        AdminChange::AddMember => Refusal::OnlyAdminsAdd,
        AdminChange::RemoveMember => Refusal::OnlyAdminsRemove,
    }
}

/// Whether a role may make admin-only changes.
pub open spec fn is_admin_role(role: GroupRole) -> bool {
    role == GroupRole::Owner || role == GroupRole::Admin
}

/// Only an owner or admin of the group (`role` is the caller's role, `None`
/// when not a member) may change its settings or membership.
pub fn check_admin(role: Option<GroupRole>, change: AdminChange) -> (r: Result<(), Refusal>)
    ensures
        (role matches Some(ro) && is_admin_role(ro)) ==> r is Ok,
        !(role matches Some(ro) && is_admin_role(ro)) ==> r == Err::<(), Refusal>(admin_refusal(change)),
{
    let allowed = match role {
        Some(GroupRole::Owner) | Some(GroupRole::Admin) => true,
        _ => false,
    };
    if allowed {
        Ok(())
    } else {
        match change {
            AdminChange::UpdateSettings => Err(Refusal::OnlyAdminsUpdate),
            AdminChange::AddMember => Err(Refusal::OnlyAdminsAdd),
            AdminChange::RemoveMember => Err(Refusal::OnlyAdminsRemove),
        }
    }
}

/// A member is added only while the group has room: the count stays within
/// the capacity after the addition.
pub fn check_capacity(member_count: i64, max_members: i32) -> (r: Result<(), Refusal>)
    ensures
        member_count < max_members ==> r is Ok,
        member_count >= max_members ==> r == Err::<(), Refusal>(Refusal::GroupFull),
        r is Ok ==> member_count + 1 <= max_members,
{
    if member_count >= max_members as i64 {
        Err(Refusal::GroupFull)
    } else {
        Ok(())
    }
}

/// The owner of a group cannot be removed; any other member, or one who is
/// not a member (`None`), can.
pub fn check_removable(target_role: Option<GroupRole>) -> (r: Result<(), Refusal>)
    ensures
        target_role == Some(GroupRole::Owner) ==> r == Err::<(), Refusal>(Refusal::CannotRemoveOwner),
        target_role != Some(GroupRole::Owner) ==> r is Ok,
{
    match target_role {
        Some(GroupRole::Owner) => Err(Refusal::CannotRemoveOwner),
        _ => Ok(()),
    }
}

/// A group is shown only to its members; to others it does not exist.
pub fn check_visible(is_member: bool) -> (r: Result<(), Refusal>)
    ensures
        is_member ==> r is Ok,
        !is_member ==> r == Err::<(), Refusal>(Refusal::GroupNotFoundOrDenied),
{
    crate::refusal::require(is_member, Refusal::GroupNotFoundOrDenied)
}

/// The stored name of a role.
pub fn role_name(role: GroupRole) -> (s: &'static str)
    ensures
        s@ == match role {
            GroupRole::Owner => "owner"@,
            GroupRole::Admin => "admin"@,
            GroupRole::Member => "member"@,
        },
{
    match role {
        GroupRole::Owner => "owner",
        GroupRole::Admin => "admin",
        GroupRole::Member => "member",
    }
}

/// The role a stored name stands for.
pub fn role_from_name(name: &str) -> (r: Option<GroupRole>)
    ensures
        r == if name@ == "owner"@ {
            Some(GroupRole::Owner)
        } else if name@ == "admin"@ {
            Some(GroupRole::Admin)
        } else if name@ == "member"@ {
            Some(GroupRole::Member)
        } else {
            None::<GroupRole>
        },
{
    if crate::text::str_eq(name, "owner") {
        Some(GroupRole::Owner)
    } else if crate::text::str_eq(name, "admin") {
        Some(GroupRole::Admin)
    } else if crate::text::str_eq(name, "member") {
        Some(GroupRole::Member)
    } else {
        None
    }
}

/// The request to change a member's role, by the role's stored name.
#[derive(Debug, Clone)]
pub struct UpdateMemberRoleRequest {
    pub role: String,
}

} // verus!
