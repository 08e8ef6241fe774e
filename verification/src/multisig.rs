//! The multisig: its members, their permissions and its consistency predicate.

use vstd::prelude::*;
use crate::errors::MultisigError;
use crate::pubkey::Pubkey;

verus! {

/// What a member may do.
#[derive(Clone, Copy, Debug, PartialEq, Eq, Structural)]
pub enum Permission {
    /// Propose transactions and amend them.
    Initiate,
    /// Vote on proposals.
    Vote,
    /// Execute approved transactions.
    Execute,
}

impl Permission {
    /// The bit that stands for this permission in a mask.
    pub open spec fn spec_bit(self) -> u8 {
        match self {
            Permission::Initiate => 1u8,
            Permission::Vote => 2u8,
            Permission::Execute => 4u8,
        }
    }

    /// The bit that stands for this permission in a mask.
    #[verifier::when_used_as_spec(spec_bit)]
    pub fn bit(self) -> (bit: u8)
        ensures
            bit == self.spec_bit(),
    {
        match self {
            Permission::Initiate => 1u8,
            Permission::Vote => 2u8,
            Permission::Execute => 4u8,
        }
    }
}

/// A set of permissions, one bit each.
#[derive(Clone, Copy, Debug, PartialEq, Eq, Structural)]
pub struct Permissions {
    pub mask: u8,
}

impl Permissions {
    /// Whether `permission` is in the set.
    pub open spec fn spec_has(self, permission: Permission) -> bool {
        self.mask & permission.spec_bit() != 0
    }

    /// Whether `permission` is in the set.
    #[verifier::when_used_as_spec(spec_has)]
    pub fn has(self, permission: Permission) -> (has: bool)
        ensures
            has == self.spec_has(permission),
    {
        self.mask & permission.bit() != 0
    }
}

/// A member of the multisig: an identity and what it may do.
#[derive(Clone, Copy, Debug)]
pub struct Member {
    pub key: Pubkey,
    pub permissions: Permissions,
}

/// A member as a mathematical value.
pub struct MemberView {
    pub key: Seq<u8>,
    pub permissions: Permissions,
}

impl View for Member {
    type V = MemberView;

    open spec fn view(&self) -> MemberView {
        MemberView { key: self.key@, permissions: self.permissions }
    }
}

/// The multisig: the authoritative record of who the members are, what each
/// may do, and how many transactions have been proposed.
#[derive(Clone, Debug)]
pub struct Multisig {
    /// The identity from which the multisig's own address is derived.
    pub create_key: Pubkey,
    /// The index of the last transaction that was proposed.
    pub transaction_index: u64,
    /// The members, in the order in which they are stored.
    pub members: Vec<Member>,
}

/// A multisig as a mathematical value.
pub struct MultisigView {
    pub create_key: Seq<u8>,
    pub transaction_index: u64,
    pub members: Seq<MemberView>,
}

impl View for Multisig {
    type V = MultisigView;

    open spec fn view(&self) -> MultisigView {
        MultisigView {
            create_key: self.create_key@,
            transaction_index: self.transaction_index,
            members: self.members@.map_values(|member: Member| member@),
        }
    }
}

/// The position of the first of `members` whose identity is `key`, counted
/// from `from`; `None` where no member from `from` on has that identity.
pub open spec fn first_member_from(members: Seq<MemberView>, key: Seq<u8>, from: int) -> Option<int>
    decreases members.len() - from,
{
    if from < 0 || from >= members.len() {
        None
    } else if members[from].key == key {
        Some(from)
    } else {
        first_member_from(members, key, from + 1)
    }
}

/// From `from` on, no member has the identity `key` exactly when the search
/// from `from` finds none; and what it finds is the first such member.
pub proof fn lemma_first_member_from(members: Seq<MemberView>, key: Seq<u8>, from: int)
    requires
        0 <= from <= members.len(),
    ensures
        match first_member_from(members, key, from) {
            Some(i) => {
                &&& from <= i < members.len()
                &&& members[i].key == key
                &&& forall|j: int| from <= j < i ==> (#[trigger] members[j]).key != key
            },
            None => forall|j: int| from <= j < members.len() ==> (#[trigger] members[j]).key != key,
        },
    decreases members.len() - from,
{
    if from < members.len() && members[from].key != key {
        lemma_first_member_from(members, key, from + 1);
    }
}

impl MultisigView {
    /// Whether `key` is the identity of a member.
    pub open spec fn has_member(self, key: Seq<u8>) -> bool {
        exists|i: int| 0 <= i < self.members.len() && (#[trigger] self.members[i]).key == key
    }

    /// The position of the first member whose identity is `key`; `None`
    /// where `key` is no member.
    pub open spec fn member_index(self, key: Seq<u8>) -> Option<int> {
        first_member_from(self.members, key, 0)
    }

    /// Whether the member with identity `key` holds `permission`: false
    /// where there is no such member.
    pub open spec fn member_has_permission(self, key: Seq<u8>, permission: Permission) -> bool {
        match self.member_index(key) {
            Some(i) => self.members[i].permissions.spec_has(permission),
            None => false,
        }
    }

    /// The consistency predicate of the multisig: its members form a set,
    /// no identity occurs twice among them.
    pub open spec fn invariant_holds(self) -> bool {
        forall|i: int, j: int|
            0 <= i < j < self.members.len() ==> (#[trigger] self.members[i]).key != (
            #[trigger] self.members[j]).key
    }

    /// A member is found exactly where there is one, and the member found
    /// is the first with the identity.
    pub proof fn lemma_member_index(self, key: Seq<u8>)
        ensures
            self.member_index(key) is Some <==> self.has_member(key),
            self.member_index(key) matches Some(i) ==> {
                &&& 0 <= i < self.members.len()
                &&& self.members[i].key == key
                &&& forall|j: int| 0 <= j < i ==> (#[trigger] self.members[j]).key != key
            },
    {
        lemma_first_member_from(self.members, key, 0);
    }
}

impl Multisig {
    /// The position of the member whose identity is `member_key`, or `None`
    /// where `member_key` is no member.
    pub fn is_member(&self, member_key: Pubkey) -> (found: Option<usize>)
        ensures
            match found {
                Some(i) => i < self.members@.len() && self@.member_index(member_key@) == Some(i as int),
                None => self@.member_index(member_key@) is None,
            },
            found is Some <==> self@.has_member(member_key@),
    {
        let mut i: usize = 0;
        while i < self.members.len()
            invariant
                i <= self.members.len(),
                first_member_from(self@.members, member_key@, 0) == first_member_from(
                    self@.members,
                    member_key@,
                    i as int,
                ),
            decreases self.members.len() - i,
        {
            assert(self@.members[i as int] == self.members@[i as int]@);
            if self.members[i].key.same(&member_key) {
                proof {
                    self@.lemma_member_index(member_key@);
                }
                return Some(i);
            }
            i = i + 1;
        }
        proof {
            self@.lemma_member_index(member_key@);
        }
        None
    }

    /// Whether `member_key` is a member that holds `permission`.
    pub fn member_has_permission(&self, member_key: Pubkey, permission: Permission) -> (has: bool)
        ensures
            has == self@.member_has_permission(member_key@, permission),
    {
        match self.is_member(member_key) {
            Some(index) => {
                assert(self@.members[index as int] == self.members@[index as int]@);
                self.members[index].permissions.has(permission)
            },
            None => false,
        }
    }

    /// Checks the consistency predicate.
    pub fn check_invariant(&self) -> (checked: Result<(), MultisigError>)
        ensures
            checked is Ok <==> self@.invariant_holds(),
            checked is Err ==> checked == Err::<(), MultisigError>(MultisigError::InvariantViolation),
    {
        let n = self.members.len();
        let mut i: usize = 0;
        while i < n
            invariant
                n == self@.members.len(),
                i <= n,
                forall|a: int, b: int|
                    0 <= a < b < n && a < i ==> (#[trigger] self@.members[a]).key != (
                    #[trigger] self@.members[b]).key,
            decreases n - i,
        {
            let mut j: usize = i + 1;
            while j < n
                invariant
                    n == self@.members.len(),
                    i < n,
                    i < j <= n,
                    forall|a: int, b: int|
                        0 <= a < b < n && a < i ==> (#[trigger] self@.members[a]).key != (
                        #[trigger] self@.members[b]).key,
                    forall|b: int| i < b < j ==> self@.members[i as int].key != (#[trigger] self@.members[b]).key,
                decreases n - j,
            {
                assert(self@.members[i as int] == self.members@[i as int]@);
                assert(self@.members[j as int] == self.members@[j as int]@);
                if self.members[i].key.same(&self.members[j].key) {
                    return Err(MultisigError::InvariantViolation);
                }
                j = j + 1;
            }
            i = i + 1;
        }
        Ok(())
    }
}

} // verus!
