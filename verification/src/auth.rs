//! Who logs in, and what a user may do.

use vstd::prelude::*;
use vstd::string::*;

verus! {

/// The name and password that a client logs in with.
#[derive(Debug)]
pub struct AuthDetails {
    username: String,
    password: String,
    remember: bool,
}

pub struct AuthDetailsView {
    pub username: Seq<char>,
    pub password: Seq<char>,
    pub remember: bool,
}

impl View for AuthDetails {
    type V = AuthDetailsView;

    closed spec fn view(&self) -> AuthDetailsView {
        AuthDetailsView {
            username: self.username@,
            password: self.password@,
            remember: self.remember,
        }
    }
}

/// The number of bytes that a text takes.
pub open spec fn byte_len(text: Seq<char>) -> usize {
    vstd::utf8::encode_utf8(text).len() as usize
}

impl AuthDetailsView {
    /// The name takes from 1 to 72 bytes, and the password is not empty.
    pub open spec fn is_valid(self) -> bool {
        &&& 0 < byte_len(self.username) <= 255
        &&& 0 < byte_len(self.password)
        &&& byte_len(self.username) <= 72
    }
}

impl AuthDetails {
    pub fn new(username: String, password: String, remember: bool) -> (r: Self)
        ensures
            r@ == (AuthDetailsView { username: username@, password: password@, remember }),
    {
        Self { username, password, remember }
    }

    pub fn is_valid(&self) -> (r: bool)
        ensures
            r == self@.is_valid(),
    {
        let name = self.username.as_str().len();
        let password = self.password.as_str().len();
        if name == 0 || name > 255 {
            return false;
        } else if password == 0 || name > 72 {
            return false;
        }
        return true;
    }

    /// Get a reference to the auth details's username.
    pub fn username(&self) -> (r: &str)
        ensures
            r@ == self@.username,
    {
        self.username.as_str()
    }

    /// Get a reference to the auth details's password.
    pub fn password(&self) -> (r: &str)
        ensures
            r@ == self@.password,
    {
        self.password.as_str()
    }

    /// Get a reference to the auth details's remember.
    pub fn remember(&self) -> (r: &bool)
        ensures
            *r == self@.remember,
    {
        &self.remember
    }
}

/// Whether bit `n` of `raw` is set.
pub open spec fn bit(raw: u16, n: u16) -> bool {
    raw & (1u16 << n) != 0
}

/// What a user may do. The permissions come as a number of eleven bits; the
/// lowest makes an administrator, who may do everything.
#[derive(Debug)]
pub struct AuthPermissions {
    username: String,
    raw_permissions: u16,
    admin: bool,
    edit_connection: bool,
    file_access: bool,
    file_edit: bool,
    print_state_edit: bool,
    settings_edit: bool,
    users_edit: bool,
    terminal_read: bool,
    terminal_send: bool,
    webcam: bool,
    update: bool,
}

pub struct AuthPermissionsView {
    pub username: Seq<char>,
    pub raw_permissions: u16,
}

impl AuthPermissionsView {
    pub open spec fn admin(self) -> bool {
        bit(self.raw_permissions, 0)
    }

    /// The permission of bit `n`, which an administrator has in any case.
    pub open spec fn may(self, n: u16) -> bool {
        self.admin() || bit(self.raw_permissions, n)
    }
}

impl View for AuthPermissions {
    type V = AuthPermissionsView;

    closed spec fn view(&self) -> AuthPermissionsView {
        AuthPermissionsView { username: self.username@, raw_permissions: self.raw_permissions }
    }
}

/// Whether bit `n` of `raw` is set.
fn has_bit(raw: u16, n: u16) -> (r: bool)
    requires
        n < 16,
    ensures
        r == bit(raw, n),
{
    raw & (1u16 << n) != 0
}

impl AuthPermissions {
    #[verifier::type_invariant]
    spec fn flags_follow_bits(self) -> bool {
        &&& self.admin == bit(self.raw_permissions, 0)
        &&& self.edit_connection == (self.admin || bit(self.raw_permissions, 1))
        &&& self.file_access == (self.admin || bit(self.raw_permissions, 2))
        &&& self.file_edit == (self.admin || bit(self.raw_permissions, 3))
        &&& self.print_state_edit == (self.admin || bit(self.raw_permissions, 4))
        &&& self.settings_edit == (self.admin || bit(self.raw_permissions, 5))
        &&& self.users_edit == (self.admin || bit(self.raw_permissions, 6))
        &&& self.terminal_read == (self.admin || bit(self.raw_permissions, 7))
        &&& self.terminal_send == (self.admin || bit(self.raw_permissions, 8))
        &&& self.webcam == (self.admin || bit(self.raw_permissions, 9))
        &&& self.update == (self.admin || bit(self.raw_permissions, 10))
    }

    pub fn new(username: String, raw_permissions: u16) -> (r: Self)
        ensures
            r@ == (AuthPermissionsView { username: username@, raw_permissions }),
    {
        let admin = has_bit(raw_permissions, 0);
        Self {
            username,
            raw_permissions,
            admin,
            edit_connection: admin || has_bit(raw_permissions, 1),
            file_access: admin || has_bit(raw_permissions, 2),
            file_edit: admin || has_bit(raw_permissions, 3),
            print_state_edit: admin || has_bit(raw_permissions, 4),
            settings_edit: admin || has_bit(raw_permissions, 5),
            users_edit: admin || has_bit(raw_permissions, 6),
            terminal_read: admin || has_bit(raw_permissions, 7),
            terminal_send: admin || has_bit(raw_permissions, 8),
            webcam: admin || has_bit(raw_permissions, 9),
            update: admin || has_bit(raw_permissions, 10),
        }
    }

    /// Get a reference to the auth permissions's username.
    pub fn username(&self) -> (r: &str)
        ensures
            r@ == self@.username,
    {
        self.username.as_str()
    }

    /// Get a reference to the auth permissions's admin.
    pub fn admin(&self) -> (r: &bool)
        ensures
            *r == self@.admin(),
    {
        proof {
            use_type_invariant(self);
        }
        &self.admin
    }

    /// Get a reference to the auth permissions's edit connection.
    pub fn edit_connection(&self) -> (r: &bool)
        ensures
            *r == self@.may(1),
    {
        proof {
            use_type_invariant(self);
        }
        &self.edit_connection
    }

    /// Get a reference to the auth permissions's file access.
    pub fn file_access(&self) -> (r: &bool)
        ensures
            *r == self@.may(2),
    {
        proof {
            use_type_invariant(self);
        }
        &self.file_access
    }

    /// Get a reference to the auth permissions's file edit.
    pub fn file_edit(&self) -> (r: &bool)
        ensures
            *r == self@.may(3),
    {
        proof {
            use_type_invariant(self);
        }
        &self.file_edit
    }

    /// Get a reference to the auth permissions's print state edit.
    pub fn print_state_edit(&self) -> (r: &bool)
        ensures
            *r == self@.may(4),
    {
        proof {
            use_type_invariant(self);
        }
        &self.print_state_edit
    }

    /// Get a reference to the auth permissions's settings edit.
    pub fn settings_edit(&self) -> (r: &bool)
        ensures
            *r == self@.may(5),
    {
        proof {
            use_type_invariant(self);
        }
        &self.settings_edit
    }

    /// Get a reference to the auth permissions's users edit.
    pub fn users_edit(&self) -> (r: &bool)
        ensures
            *r == self@.may(6),
    {
        proof {
            use_type_invariant(self);
        }
        &self.users_edit
    }

    /// Get a reference to the auth permissions's terminal read.
    pub fn terminal_read(&self) -> (r: &bool)
        ensures
            *r == self@.may(7),
    {
        proof {
            use_type_invariant(self);
        }
        &self.terminal_read
    }

    /// Get a reference to the auth permissions's terminal send.
    pub fn terminal_send(&self) -> (r: &bool)
        ensures
            *r == self@.may(8),
    {
        proof {
            use_type_invariant(self);
        }
        &self.terminal_send
    }

    /// Get a reference to the auth permissions's webcam.
    pub fn webcam(&self) -> (r: &bool)
        ensures
            *r == self@.may(9),
    {
        proof {
            use_type_invariant(self);
        }
        &self.webcam
    }

    /// Get a reference to the auth permissions's update.
    pub fn update(&self) -> (r: &bool)
        ensures
            *r == self@.may(10),
    {
        proof {
            use_type_invariant(self);
        }
        &self.update
    }
}

/// The token that a login returns.
#[derive(Debug)]
pub struct TokenReturnType {
    token: String,
}

impl View for TokenReturnType {
    type V = Seq<char>;

    closed spec fn view(&self) -> Seq<char> {
        self.token@
    }
}

impl TokenReturnType {
    pub fn new(token: String) -> (r: Self)
        ensures
            r@ == token@,
    {
        Self { token }
    }

    pub fn token(&self) -> (r: &str)
        ensures
            r@ == self@,
    {
        self.token.as_str()
    }
}

} // verus!
