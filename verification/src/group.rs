//! Wire types for user groups and their membership.

use vstd::prelude::*;

use crate::common::Timestamp;

verus! {

#[derive(PartialEq, Eq, PartialOrd, Ord, Hash, Clone, Debug)]
pub struct CreateGroupRequest {
    pub group_name: String,
}

#[derive(PartialEq, Eq, PartialOrd, Ord, Hash, Clone, Debug)]
pub struct CreateGroupResponse {
    pub group_name: String,
    pub owner_email: String,
}

#[derive(PartialEq, Eq, PartialOrd, Ord, Hash, Clone, Debug)]
pub struct AddUserToGroupRequest {
    pub user_email: String,
}

#[derive(PartialEq, Eq, PartialOrd, Ord, Hash, Clone, Debug)]
pub struct KickUserFromGroupRequest {
    pub user_email: String,
}

#[derive(PartialEq, Eq, PartialOrd, Ord, Hash, Clone, Debug)]
pub struct UserGroup {
    pub created_at: Timestamp,
    pub last_modified: Timestamp,
    pub owner_email: String,
    pub group_name: String,
    /// Only set in the relatively uncommon case that the user is an admin.
    pub is_admin: bool,
    /// Only set in the relatively uncommon case that the user is the owner.
    pub is_owner: bool,
}

#[derive(PartialEq, Eq, PartialOrd, Ord, Hash, Clone, Debug)]
pub struct ListUserGroupsResponse {
    pub groups: Vec<UserGroup>,
}

#[derive(PartialEq, Eq, PartialOrd, Ord, Hash, Clone, Debug)]
pub struct GroupMember {
    pub user_email: String,
    pub first_name: String,
    pub last_name: String,
}

#[derive(PartialEq, Eq, PartialOrd, Ord, Hash, Clone, Debug)]
pub struct ListGroupMembersResponse {
    pub members: Vec<GroupMember>,
}

} // verus!
