//! Group permissions and their byte form, and files as they are stored.

use vstd::prelude::*;
use vstd::slice::slice_to_vec;
use vstd::utf8::{
    decode_utf8, encode_utf8, encode_utf8_decode_utf8, encode_utf8_valid_utf8, valid_utf8,
};

use crate::algorithms::names;
use crate::bytes::{extend_bytes, sub_bytes};

verus! {

/// The name of the permission that makes a member an administrator.
pub const ADMIN: &'static str = "admin";

/// The number of bytes that the general permissions take in the byte form.
pub const FLAGS_LEN: usize = 16;

/// The longest name, in bytes, that the byte form holds.
pub const MAX_NAME_LEN: usize = 255;

/// What a member of a group may do.
pub struct GroupPermissions {
    pub send_messages: bool,
    pub read_messages: bool,
    pub invite_users: bool,
    pub custom_permissions: Vec<String>,
}

/// What permissions hold: the three general ones and the names of the
/// custom ones.
pub struct GroupPermissionsView {
    pub send_messages: bool,
    pub read_messages: bool,
    pub invite_users: bool,
    pub custom_permissions: Seq<Seq<char>>,
}

impl View for GroupPermissions {
    type V = GroupPermissionsView;

    open spec fn view(&self) -> GroupPermissionsView {
        GroupPermissionsView {
            send_messages: self.send_messages,
            read_messages: self.read_messages,
            invite_users: self.invite_users,
            custom_permissions: Seq::new(
                self.custom_permissions@.len(),
                |i: int| self.custom_permissions@[i]@,
            ),
        }
    }
}

/// A stored file: its name and content as they were sent, and the name of
/// the cipher that they were encrypted with.
#[derive(Debug, PartialEq, Eq)]
pub struct File {
    pub name: Vec<u8>,
    pub content: Vec<u8>,
    pub encryption_method: String,
}

impl Clone for File {
    fn clone(&self) -> (r: Self)
        ensures
            r.name@ == self.name@,
            r.content@ == self.content@,
            r.encryption_method@ == self.encryption_method@,
    {
        File {
            name: slice_to_vec(self.name.as_slice()),
            content: slice_to_vec(self.content.as_slice()),
            encryption_method: self.encryption_method.clone(),
        }
    }
}

/// The text that invalid UTF-8 is read as, with a replacement character for
/// every ill-formed part.
pub uninterp spec fn utf8_lossy(bytes: Seq<u8>) -> Seq<char>;

/// The text that bytes are read as: the text that they encode where they are
/// valid UTF-8, and the lossy reading where they are not.
pub open spec fn spec_text(bytes: Seq<u8>) -> Seq<char> {
    if valid_utf8(bytes) {
        decode_utf8(bytes)
    } else {
        utf8_lossy(bytes)
    }
}

/// `String::from_utf8_lossy`, made a `String`. Valid UTF-8 gives the text
/// that it encodes; anything else gives the named lossy reading.
#[verifier::external_body]
fn text_of(bytes: &[u8]) -> (r: String)
    ensures
        r@ == if valid_utf8(bytes@) {
            decode_utf8(bytes@)
        } else {
            utf8_lossy(bytes@)
        },
{
    String::from_utf8_lossy(bytes).into_owned()
}

/// The members' permissions by default: all general ones, no custom one.
pub open spec fn spec_default_permissions() -> GroupPermissionsView {
    GroupPermissionsView {
        send_messages: true,
        read_messages: true,
        invite_users: true,
        custom_permissions: Seq::empty(),
    }
}

/// An administrator's permissions: all general ones, and the custom one that
/// makes an administrator.
pub open spec fn spec_admin_permissions() -> GroupPermissionsView {
    GroupPermissionsView {
        send_messages: true,
        read_messages: true,
        invite_users: true,
        custom_permissions: seq![ADMIN@],
    }
}

/// The byte that holds the general permissions: 1 for sending, 2 for
/// reading, 4 for inviting.
pub open spec fn spec_flags(permissions: GroupPermissionsView) -> u8 {
    ((if permissions.send_messages {
        1int
    } else {
        0int
    }) + (if permissions.read_messages {
        2int
    } else {
        0int
    }) + (if permissions.invite_users {
        4int
    } else {
        0int
    })) as u8
}

/// The byte form of one custom permission: the length of its name in bytes,
/// then the name in UTF-8.
pub open spec fn spec_entry(name: Seq<char>) -> Seq<u8> {
    seq![encode_utf8(name).len() as u8] + encode_utf8(name)
}

/// The byte form of the custom permissions, one after the other.
pub open spec fn spec_entries(names: Seq<Seq<char>>) -> Seq<u8>
    decreases names.len(),
{
    if names.len() == 0 {
        Seq::<u8>::empty()
    } else {
        spec_entry(names[0]) + spec_entries(names.drop_first())
    }
}

/// Whether every name fits the byte form: none is longer than 255 bytes.
pub open spec fn spec_names_fit(names: Seq<Seq<char>>) -> bool {
    forall|i: int| 0 <= i < names.len() ==> (#[trigger] encode_utf8(names[i])).len() <= MAX_NAME_LEN
}

/// The byte form of permissions: the general permissions as a number of 16
/// bytes, least significant byte first, then the custom permissions.
pub open spec fn spec_permission_bytes(permissions: GroupPermissionsView) -> Seq<u8> {
    seq![spec_flags(permissions)] + Seq::new(15, |i: int| 0u8) + spec_entries(
        permissions.custom_permissions,
    )
}

/// The names that a sequence of entries holds, or `None` where the last
/// entry is cut short.
pub open spec fn spec_parsed_entries(bytes: Seq<u8>) -> Option<Seq<Seq<char>>>
    decreases bytes.len(),
{
    if bytes.len() == 0 {
        Some(Seq::<Seq<char>>::empty())
    } else if bytes.len() < 1 + bytes[0] {
        None
    } else {
        match spec_parsed_entries(bytes.skip(1 + bytes[0])) {
            Some(rest) => Some(seq![spec_text(bytes.subrange(1, 1 + bytes[0]))] + rest),
            None => None,
        }
    }
}

/// The permissions that a byte form holds, or `None` where the bytes are
/// none: fewer than 16, or with an entry that is cut short.
pub open spec fn spec_parsed_permissions(bytes: Seq<u8>) -> Option<GroupPermissionsView> {
    if bytes.len() < FLAGS_LEN {
        None
    } else {
        match spec_parsed_entries(bytes.skip(FLAGS_LEN as int)) {
            Some(custom) => Some(
                GroupPermissionsView {
                    send_messages: bytes[0] & 1 != 0,
                    read_messages: bytes[0] & 2 != 0,
                    invite_users: bytes[0] & 4 != 0,
                    custom_permissions: custom,
                },
            ),
            None => None,
        }
    }
}

impl Default for GroupPermissions {
    fn default() -> (r: Self)
        ensures
            r@ == spec_default_permissions(),
    {
        let r = GroupPermissions {
            send_messages: true,
            read_messages: true,
            invite_users: true,
            custom_permissions: Vec::new(),
        };
        assert(r@.custom_permissions == Seq::<Seq<char>>::empty());
        r
    }
}

impl GroupPermissions {
    /// The byte form of the permissions.
    pub fn to_bytes(&self) -> (r: Vec<u8>)
        requires
            spec_names_fit(self@.custom_permissions),
        ensures
            r@ == spec_permission_bytes(self@),
    {
        let mut flags: u8 = 0;
        if self.send_messages {
            flags = flags + 1;
        }
        if self.read_messages {
            flags = flags + 2;
        }
        if self.invite_users {
            flags = flags + 4;
        }
        let mut bytes: Vec<u8> = Vec::new();
        bytes.push(flags);
        let mut k: usize = 0;
        while k < 15
            invariant
                k <= 15,
                bytes@ == seq![flags] + Seq::new(k as nat, |i: int| 0u8),
            decreases 15 - k,
        {
            bytes.push(0);
            k = k + 1;
        }
        let ghost names = self@.custom_permissions;
        let ghost header = bytes@;
        let n: usize = self.custom_permissions.len();
        let mut i: usize = 0;
        proof {
            assert(names.skip(0) == names);
        }
        while i < n
            invariant
                i <= n,
                n == self.custom_permissions@.len(),
                names == self@.custom_permissions,
                spec_names_fit(names),
                bytes@ + spec_entries(names.skip(i as int)) == header + spec_entries(names),
            decreases n - i,
        {
            let name: &[u8] = self.custom_permissions[i].as_str().as_bytes();
            proof {
                let rest = names.skip(i as int);
                assert(rest.drop_first() == names.skip(i + 1));
            }
            bytes.push(name.len() as u8);
            extend_bytes(&mut bytes, name);
            i = i + 1;
        }
        bytes
    }

    /// Reads a byte form, or gives `None` where the bytes are none: fewer
    /// than 16, or with an entry that is cut short. Of the 16 bytes of the
    /// general permissions only the lowest three bits are read.
    pub fn try_from_bytes(bytes: &[u8]) -> (r: Option<Self>)
        ensures
            match r {
                Some(permissions) => spec_parsed_permissions(bytes@) == Some(permissions@),
                None => spec_parsed_permissions(bytes@) is None,
            },
    {
        if bytes.len() < 16 {
            return None;
        }
        let flags: u8 = bytes[0];
        let mut custom_permissions: Vec<String> = Vec::new();
        let mut index: usize = 16;
        let ghost entries = bytes@.skip(FLAGS_LEN as int);
        while index < bytes.len()
            invariant
                16 <= index <= bytes@.len(),
                entries == bytes@.skip(FLAGS_LEN as int),
                spec_parsed_entries(entries) == match spec_parsed_entries(
                    bytes@.skip(index as int),
                ) {
                    Some(rest) => Some(
                        Seq::new(
                            custom_permissions@.len(),
                            |i: int| custom_permissions@[i]@,
                        ) + rest,
                    ),
                    None => None,
                },
            decreases bytes@.len() - index,
        {
            let ghost tail = bytes@.skip(index as int);
            let length: usize = bytes[index] as usize;
            if bytes.len() - index < 1 + length {
                return None;
            }
            let name: Vec<u8> = sub_bytes(bytes, index + 1, index + 1 + length);
            let text: String = text_of(name.as_slice());
            proof {
                assert(tail.subrange(1, 1 + length) == name@);
                assert(tail.skip(1 + length) == bytes@.skip(index + 1 + length));
            }
            custom_permissions.push(text);
            index = index + 1 + length;
        }
        let permissions = GroupPermissions {
            send_messages: flags & 1 != 0,
            read_messages: flags & 2 != 0,
            invite_users: flags & 4 != 0,
            custom_permissions,
        };
        Some(permissions)
    }

    /// Reads a byte form that is one: at least 16 bytes, with no entry cut
    /// short.
    pub fn from_bytes(bytes: &[u8]) -> (r: Self)
        requires
            spec_parsed_permissions(bytes@) is Some,
        ensures
            spec_parsed_permissions(bytes@) == Some(r@),
    {
        match GroupPermissions::try_from_bytes(bytes) {
            Some(permissions) => permissions,
            None => GroupPermissions::default(),
        }
    }

    /// An administrator's permissions.
    pub fn admin() -> (r: Self)
        ensures
            r@ == spec_admin_permissions(),
    {
        let mut custom_permissions: Vec<String> = Vec::new();
        custom_permissions.push(ADMIN.to_owned());
        let r = GroupPermissions {
            send_messages: true,
            read_messages: true,
            invite_users: true,
            custom_permissions,
        };
        assert(r@.custom_permissions == seq![ADMIN@]);
        r
    }

    /// Whether the permissions make an administrator.
    pub fn is_admin(&self) -> (r: bool)
        ensures
            r == self@.custom_permissions.contains(ADMIN@),
    {
        let n: usize = self.custom_permissions.len();
        let mut i: usize = 0;
        while i < n
            invariant
                i <= n,
                n == self.custom_permissions@.len(),
                forall|j: int| 0 <= j < i ==> self@.custom_permissions[j] != ADMIN@,
            decreases n - i,
        {
            if names(&self.custom_permissions[i], ADMIN) {
                assert(self@.custom_permissions[i as int] == ADMIN@);
                return true;
            }
            i = i + 1;
        }
        false
    }
}

/// Which of the three lowest bits a small number has.
proof fn lemma_flag_bits(flags: u8)
    by (bit_vector)
    requires
        flags < 8,
    ensures
        (flags & 1 != 0) == (flags == 1 || flags == 3 || flags == 5 || flags == 7),
        (flags & 2 != 0) == (flags == 2 || flags == 3 || flags == 6 || flags == 7),
        (flags & 4 != 0) == (flags >= 4),
{
}

/// Reading the byte form of custom permissions gives their names back.
pub proof fn lemma_parse_inverts_entries(names: Seq<Seq<char>>)
    requires
        spec_names_fit(names),
    ensures
        spec_parsed_entries(spec_entries(names)) == Some(names),
    decreases names.len(),
{
    if names.len() > 0 {
        let name = names[0];
        let rest = names.drop_first();
        let encoded = encode_utf8(name);
        let bytes = spec_entries(names);
        assert(bytes.subrange(1, 1 + bytes[0]) == encoded);
        assert(bytes.skip(1 + bytes[0]) == spec_entries(rest));
        assert(spec_names_fit(rest)) by {
            assert forall|i: int| 0 <= i < rest.len() implies (#[trigger] encode_utf8(
                rest[i],
            )).len() <= MAX_NAME_LEN by {
                assert(rest[i] == names[i + 1]);
            }
        }
        lemma_parse_inverts_entries(rest);
        encode_utf8_valid_utf8(name);
        encode_utf8_decode_utf8(name);
    }
}

/// Reading the byte form of permissions gives the permissions back, provided
/// that no name of a custom permission is longer than 255 bytes.
pub proof fn lemma_permissions_round_trip(permissions: GroupPermissionsView)
    requires
        spec_names_fit(permissions.custom_permissions),
    ensures
        spec_parsed_permissions(spec_permission_bytes(permissions)) == Some(permissions),
{
    let bytes = spec_permission_bytes(permissions);
    assert(bytes.skip(FLAGS_LEN as int) == spec_entries(permissions.custom_permissions));
    lemma_flag_bits(spec_flags(permissions));
    lemma_parse_inverts_entries(permissions.custom_permissions);
}

} // verus!
