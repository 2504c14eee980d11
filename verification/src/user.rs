use vstd::prelude::*;
use vstd::string::StringExecFns;
use crate::audit;
use crate::audit::logged;
use crate::fields;
use crate::fields::fields_map;
use crate::ids;
use crate::ids::{distinct, without_id};
use crate::text::{bool_label, bool_text, dec_int, int_text};

verus! {

#[derive(Clone, Copy, Debug, PartialEq, Eq, Structural)]
pub enum Role {
    Admin,
    Regular,
}

/// The lighter profile aggregate: identity, a social graph of follower and
/// following id sets, one-shot archive and delete markers, and the same
/// append-only audit trail as the task aggregate.
#[derive(Debug)]
pub struct User {
    pub id: i32,
    pub username: String,
    pub password_hash: String,
    pub name: Option<String>,
    pub surname: Option<String>,
    pub email: Option<String>,
    pub bio: Option<String>,
    pub image: Option<String>,
    pub followers: Vec<i32>,
    pub following: Vec<i32>,
    pub created_at: i64,
    pub updated_at: i64,
    pub archived_at: Option<i64>,
    pub deleted_at: Option<i64>,
    pub role: Role,
    pub is_verified: bool,
    pub activity_log: Vec<String>,
    pub custom_fields: Vec<(String, String)>,
}

pub open spec fn role_text(r: Role) -> Seq<char> {
    match r {
        Role::Admin => "Admin"@,
        Role::Regular => "Regular"@,
    }
}

pub fn role_label(r: Role) -> (s: String)
    ensures
        s@ == role_text(r),
{
    match r {
        Role::Admin => "Admin".to_owned(),
        Role::Regular => "Regular".to_owned(),
    }
}

// ---------------------------------------------------------------------------
// Frame predicates. `updated_at` and `activity_log` are stated separately.
// ---------------------------------------------------------------------------

pub open spec fn same_identity(a: User, b: User) -> bool {
    &&& b.id == a.id
    &&& b.username == a.username
    &&& b.created_at == a.created_at
}

pub open spec fn same_profile(a: User, b: User) -> bool {
    &&& b.password_hash == a.password_hash
    &&& b.name == a.name
    &&& b.surname == a.surname
    &&& b.email == a.email
    &&& b.bio == a.bio
    &&& b.image == a.image
}

pub open spec fn same_social(a: User, b: User) -> bool {
    &&& b.followers == a.followers
    &&& b.following == a.following
}

pub open spec fn same_state(a: User, b: User) -> bool {
    &&& b.role == a.role
    &&& b.is_verified == a.is_verified
    &&& b.archived_at == a.archived_at
    &&& b.deleted_at == a.deleted_at
}

/// Everything except `updated_at` and `activity_log` is untouched.
pub open spec fn frame_all(a: User, b: User) -> bool {
    &&& same_identity(a, b)
    &&& same_profile(a, b)
    &&& same_social(a, b)
    &&& same_state(a, b)
    &&& b.custom_fields == a.custom_fields
}

// ---------------------------------------------------------------------------
// Operation predicates.
// ---------------------------------------------------------------------------

/// A freshly constructed user: unverified, no profile fields, empty social
/// graph, both timestamps equal.
pub open spec fn fresh_user(
    u: User,
    id: i32,
    username: String,
    password_hash: String,
    role: Role,
) -> bool {
    &&& u.id == id
    &&& u.username == username
    &&& u.password_hash == password_hash
    &&& u.role == role
    &&& u.name is None
    &&& u.surname is None
    &&& u.email is None
    &&& u.bio is None
    &&& u.image is None
    &&& u.followers@ == Seq::<i32>::empty()
    &&& u.following@ == Seq::<i32>::empty()
    &&& u.updated_at == u.created_at
    &&& u.archived_at is None
    &&& u.deleted_at is None
    &&& !u.is_verified
    &&& u.activity_log@ == Seq::<String>::empty()
    &&& u.custom_fields@ == Seq::<(String, String)>::empty()
}

/// The follower and following sequences hold no duplicates: each is a set.
pub open spec fn wf(u: User) -> bool {
    &&& distinct(u.followers@)
    &&& distinct(u.following@)
}

pub open spec fn name_set(pre: User, post: User, name: String) -> bool {
    &&& post.name == Some(name)
    &&& post.password_hash == pre.password_hash
    &&& post.surname == pre.surname
    &&& post.email == pre.email
    &&& post.bio == pre.bio
    &&& post.image == pre.image
    &&& logged(pre.activity_log@, post.activity_log@, "Name set to "@ + name@)
    &&& same_identity(pre, post)
    &&& same_social(pre, post)
    &&& same_state(pre, post)
    &&& post.custom_fields == pre.custom_fields
}

pub open spec fn surname_set(pre: User, post: User, surname: String) -> bool {
    &&& post.surname == Some(surname)
    &&& post.password_hash == pre.password_hash
    &&& post.name == pre.name
    &&& post.email == pre.email
    &&& post.bio == pre.bio
    &&& post.image == pre.image
    &&& logged(pre.activity_log@, post.activity_log@, "Surname set to "@ + surname@)
    &&& same_identity(pre, post)
    &&& same_social(pre, post)
    &&& same_state(pre, post)
    &&& post.custom_fields == pre.custom_fields
}

pub open spec fn email_set(pre: User, post: User, email: String) -> bool {
    &&& post.email == Some(email)
    &&& post.password_hash == pre.password_hash
    &&& post.name == pre.name
    &&& post.surname == pre.surname
    &&& post.bio == pre.bio
    &&& post.image == pre.image
    &&& logged(pre.activity_log@, post.activity_log@, "Email set to "@ + email@)
    &&& same_identity(pre, post)
    &&& same_social(pre, post)
    &&& same_state(pre, post)
    &&& post.custom_fields == pre.custom_fields
}

pub open spec fn bio_set(pre: User, post: User, bio: String) -> bool {
    &&& post.bio == Some(bio)
    &&& post.password_hash == pre.password_hash
    &&& post.name == pre.name
    &&& post.surname == pre.surname
    &&& post.email == pre.email
    &&& post.image == pre.image
    &&& logged(pre.activity_log@, post.activity_log@, "Bio updated"@)
    &&& same_identity(pre, post)
    &&& same_social(pre, post)
    &&& same_state(pre, post)
    &&& post.custom_fields == pre.custom_fields
}

pub open spec fn image_set(pre: User, post: User, image: String) -> bool {
    &&& post.image == Some(image)
    &&& post.password_hash == pre.password_hash
    &&& post.name == pre.name
    &&& post.surname == pre.surname
    &&& post.email == pre.email
    &&& post.bio == pre.bio
    &&& logged(pre.activity_log@, post.activity_log@, "Profile image updated"@)
    &&& same_identity(pre, post)
    &&& same_social(pre, post)
    &&& same_state(pre, post)
    &&& post.custom_fields == pre.custom_fields
}

pub open spec fn follower_added(pre: User, post: User, follower_id: i32) -> bool {
    &&& !pre.followers@.contains(follower_id)
    &&& post.followers@ == pre.followers@.push(follower_id)
    &&& post.following == pre.following
    &&& post.updated_at == pre.updated_at
    &&& logged(
        pre.activity_log@,
        post.activity_log@,
        "User "@ + dec_int(follower_id as int) + " followed"@,
    )
    &&& same_identity(pre, post)
    &&& same_profile(pre, post)
    &&& same_state(pre, post)
    &&& post.custom_fields == pre.custom_fields
}

pub open spec fn follower_removed(pre: User, post: User, follower_id: i32) -> bool {
    &&& pre.followers@.contains(follower_id)
    &&& post.followers@ == without_id(pre.followers@, follower_id)
    &&& post.following == pre.following
    &&& post.updated_at == pre.updated_at
    &&& logged(
        pre.activity_log@,
        post.activity_log@,
        "User "@ + dec_int(follower_id as int) + " unfollowed"@,
    )
    &&& same_identity(pre, post)
    &&& same_profile(pre, post)
    &&& same_state(pre, post)
    &&& post.custom_fields == pre.custom_fields
}

pub open spec fn following_added(pre: User, post: User, following_id: i32) -> bool {
    &&& !pre.following@.contains(following_id)
    &&& post.following@ == pre.following@.push(following_id)
    &&& post.followers == pre.followers
    &&& post.updated_at == pre.updated_at
    &&& logged(
        pre.activity_log@,
        post.activity_log@,
        "Started following user "@ + dec_int(following_id as int),
    )
    &&& same_identity(pre, post)
    &&& same_profile(pre, post)
    &&& same_state(pre, post)
    &&& post.custom_fields == pre.custom_fields
}

pub open spec fn following_removed(pre: User, post: User, following_id: i32) -> bool {
    &&& pre.following@.contains(following_id)
    &&& post.following@ == without_id(pre.following@, following_id)
    &&& post.followers == pre.followers
    &&& post.updated_at == pre.updated_at
    &&& logged(
        pre.activity_log@,
        post.activity_log@,
        "Stopped following user "@ + dec_int(following_id as int),
    )
    &&& same_identity(pre, post)
    &&& same_profile(pre, post)
    &&& same_state(pre, post)
    &&& post.custom_fields == pre.custom_fields
}

pub open spec fn password_updated(pre: User, post: User, new_hash: String) -> bool {
    &&& post.password_hash == new_hash
    &&& post.name == pre.name
    &&& post.surname == pre.surname
    &&& post.email == pre.email
    &&& post.bio == pre.bio
    &&& post.image == pre.image
    &&& logged(pre.activity_log@, post.activity_log@, "Password updated"@)
    &&& same_identity(pre, post)
    &&& same_social(pre, post)
    &&& same_state(pre, post)
    &&& post.custom_fields == pre.custom_fields
}

pub open spec fn role_set(pre: User, post: User, role: Role) -> bool {
    &&& post.role == role
    &&& post.is_verified == pre.is_verified
    &&& post.archived_at == pre.archived_at
    &&& post.deleted_at == pre.deleted_at
    &&& logged(pre.activity_log@, post.activity_log@, "Role set to "@ + role_text(role))
    &&& same_identity(pre, post)
    &&& same_profile(pre, post)
    &&& same_social(pre, post)
    &&& post.custom_fields == pre.custom_fields
}

pub open spec fn verification_set(pre: User, post: User, is_verified: bool) -> bool {
    &&& post.is_verified == is_verified
    &&& post.role == pre.role
    &&& post.archived_at == pre.archived_at
    &&& post.deleted_at == pre.deleted_at
    &&& logged(
        pre.activity_log@,
        post.activity_log@,
        "Verification status set to "@ + bool_text(is_verified),
    )
    &&& same_identity(pre, post)
    &&& same_profile(pre, post)
    &&& same_social(pre, post)
    &&& post.custom_fields == pre.custom_fields
}

pub open spec fn archived(pre: User, post: User) -> bool {
    &&& post.archived_at == Some(post.updated_at)
    &&& post.deleted_at == pre.deleted_at
    &&& post.role == pre.role
    &&& post.is_verified == pre.is_verified
    &&& logged(pre.activity_log@, post.activity_log@, "User archived"@)
    &&& same_identity(pre, post)
    &&& same_profile(pre, post)
    &&& same_social(pre, post)
    &&& post.custom_fields == pre.custom_fields
}

pub open spec fn deleted(pre: User, post: User) -> bool {
    &&& post.deleted_at == Some(post.updated_at)
    &&& post.archived_at == pre.archived_at
    &&& post.role == pre.role
    &&& post.is_verified == pre.is_verified
    &&& logged(pre.activity_log@, post.activity_log@, "User deleted"@)
    &&& same_identity(pre, post)
    &&& same_profile(pre, post)
    &&& same_social(pre, post)
    &&& post.custom_fields == pre.custom_fields
}

pub open spec fn field_added(pre: User, post: User, key: String, value: String) -> bool {
    &&& post.custom_fields@ == pre.custom_fields@.push((key, value))
    &&& fields_map(post.custom_fields@) == fields_map(pre.custom_fields@).insert(key@, value@)
    &&& post.updated_at == pre.updated_at
    &&& logged(
        pre.activity_log@,
        post.activity_log@,
        "Custom field '"@ + key@ + "' set to '"@ + value@ + "'"@,
    )
    &&& same_identity(pre, post)
    &&& same_profile(pre, post)
    &&& same_social(pre, post)
    &&& same_state(pre, post)
}

/// One audit entry ending with `msg` was appended; nothing else moved.
pub open spec fn activity_appended(pre: User, post: User, msg: Seq<char>) -> bool {
    &&& logged(pre.activity_log@, post.activity_log@, msg)
    &&& post.updated_at == pre.updated_at
    &&& frame_all(pre, post)
}

impl User {
    pub fn new(id: i32, username: String, password_hash: String, role: Role) -> (u: Self)
        ensures
            fresh_user(u, id, username, password_hash, role),
            wf(u),
    {
        let now = audit::now_millis();
        User {
            id,
            username,
            password_hash,
            name: None,
            surname: None,
            email: None,
            bio: None,
            image: None,
            followers: Vec::new(),
            following: Vec::new(),
            created_at: now,
            updated_at: now,
            archived_at: None,
            deleted_at: None,
            role,
            is_verified: false,
            activity_log: Vec::new(),
            custom_fields: Vec::new(),
        }
    }

    pub fn set_name(&mut self, name: String)
        ensures
            name_set(*old(self), *final(self), name),
    {
        let mut msg = "Name set to ".to_owned();
        msg.append(name.as_str());
        self.name = Some(name);
        self.update_timestamp();
        self.log_activity(msg);
    }

    pub fn set_surname(&mut self, surname: String)
        ensures
            surname_set(*old(self), *final(self), surname),
    {
        let mut msg = "Surname set to ".to_owned();
        msg.append(surname.as_str());
        self.surname = Some(surname);
        self.update_timestamp();
        self.log_activity(msg);
    }

    pub fn set_email(&mut self, email: String)
        ensures
            email_set(*old(self), *final(self), email),
    {
        let mut msg = "Email set to ".to_owned();
        msg.append(email.as_str());
        self.email = Some(email);
        self.update_timestamp();
        self.log_activity(msg);
    }

    pub fn set_bio(&mut self, bio: String)
        ensures
            bio_set(*old(self), *final(self), bio),
    {
        self.bio = Some(bio);
        self.update_timestamp();
        self.log_activity("Bio updated".to_owned());
    }

    pub fn set_image(&mut self, image: String)
        ensures
            image_set(*old(self), *final(self), image),
    {
        self.image = Some(image);
        self.update_timestamp();
        self.log_activity("Profile image updated".to_owned());
    }

    /// Records a follower; following an already-recorded follower is a silent
    /// no-op.
    pub fn add_follower(&mut self, follower_id: i32)
        ensures
            old(self).followers@.contains(follower_id) ==> *final(self) == *old(self),
            !old(self).followers@.contains(follower_id) ==> follower_added(
                *old(self),
                *final(self),
                follower_id,
            ),
            wf(*old(self)) ==> wf(*final(self)),
    {
        let present = ids::contains_id(&self.followers, follower_id);
        if !present {
            proof {
                if wf(*old(self)) {
                    ids::lemma_add_id_distinct(old(self).followers@, follower_id);
                }
            }
            self.followers.push(follower_id);
            let mut msg = "User ".to_owned();
            msg.append(int_text(follower_id as i64).as_str());
            msg.append(" followed");
            self.log_activity(msg);
        }
    }

    /// Removes a follower; removing an absent follower is a silent no-op.
    pub fn remove_follower(&mut self, follower_id: i32)
        ensures
            !old(self).followers@.contains(follower_id) ==> *final(self) == *old(self),
            old(self).followers@.contains(follower_id) ==> follower_removed(
                *old(self),
                *final(self),
                follower_id,
            ),
            wf(*old(self)) ==> wf(*final(self)),
    {
        let present = ids::contains_id(&self.followers, follower_id);
        if present {
            proof {
                if wf(*old(self)) {
                    ids::lemma_without_id_distinct(old(self).followers@, follower_id);
                }
            }
            ids::remove_id(&mut self.followers, follower_id);
            let mut msg = "User ".to_owned();
            msg.append(int_text(follower_id as i64).as_str());
            msg.append(" unfollowed");
            self.log_activity(msg);
        }
    }

    /// Starts following a user; an id already followed is a silent no-op, so
    /// the following set never gains a duplicate.
    pub fn add_following(&mut self, following_id: i32)
        ensures
            old(self).following@.contains(following_id) ==> *final(self) == *old(self),
            !old(self).following@.contains(following_id) ==> following_added(
                *old(self),
                *final(self),
                following_id,
            ),
            wf(*old(self)) ==> wf(*final(self)),
    {
        let present = ids::contains_id(&self.following, following_id);
        if !present {
            proof {
                if wf(*old(self)) {
                    ids::lemma_add_id_distinct(old(self).following@, following_id);
                }
            }
            self.following.push(following_id);
            let mut msg = "Started following user ".to_owned();
            msg.append(int_text(following_id as i64).as_str());
            self.log_activity(msg);
        }
    }

    /// Stops following a user; an id not followed is a silent no-op.
    pub fn remove_following(&mut self, following_id: i32)
        ensures
            !old(self).following@.contains(following_id) ==> *final(self) == *old(self),
            old(self).following@.contains(following_id) ==> following_removed(
                *old(self),
                *final(self),
                following_id,
            ),
            wf(*old(self)) ==> wf(*final(self)),
    {
        let present = ids::contains_id(&self.following, following_id);
        if present {
            proof {
                if wf(*old(self)) {
                    ids::lemma_without_id_distinct(old(self).following@, following_id);
                }
            }
            ids::remove_id(&mut self.following, following_id);
            let mut msg = "Stopped following user ".to_owned();
            msg.append(int_text(following_id as i64).as_str());
            self.log_activity(msg);
        }
    }

    pub fn update_password(&mut self, new_password_hash: String)
        ensures
            password_updated(*old(self), *final(self), new_password_hash),
    {
        self.password_hash = new_password_hash;
        self.update_timestamp();
        self.log_activity("Password updated".to_owned());
    }

    pub fn set_role(&mut self, role: Role)
        ensures
            role_set(*old(self), *final(self), role),
    {
        self.role = role;
        self.update_timestamp();
        let mut msg = "Role set to ".to_owned();
        msg.append(role_label(role).as_str());
        self.log_activity(msg);
    }

    pub fn set_verification_status(&mut self, is_verified: bool)
        ensures
            verification_set(*old(self), *final(self), is_verified),
    {
        self.is_verified = is_verified;
        self.update_timestamp();
        let mut msg = "Verification status set to ".to_owned();
        msg.append(bool_label(is_verified).as_str());
        self.log_activity(msg);
    }

    /// Stamps the archive marker. The guard against repeating it is the user
    /// service's concern.
    pub fn archive_user(&mut self)
        ensures
            archived(*old(self), *final(self)),
    {
        let now = audit::now_millis();
        self.archived_at = Some(now);
        self.updated_at = now;
        self.log_activity("User archived".to_owned());
    }

    /// Stamps the delete marker; a soft delete, nothing is removed.
    pub fn delete_user(&mut self)
        ensures
            deleted(*old(self), *final(self)),
    {
        let now = audit::now_millis();
        self.deleted_at = Some(now);
        self.updated_at = now;
        self.log_activity("User deleted".to_owned());
    }

    /// Records a custom field write; a later write to the same key wins.
    pub fn add_custom_field(&mut self, key: String, value: String)
        ensures
            field_added(*old(self), *final(self), key, value),
    {
        let mut msg = "Custom field '".to_owned();
        msg.append(key.as_str());
        msg.append("' set to '");
        msg.append(value.as_str());
        msg.append("'");
        fields::put_field(&mut self.custom_fields, key, value);
        self.log_activity(msg);
    }

    /// The value of the custom field, under last-write-wins semantics.
    pub fn get_custom_field(&self, key: &str) -> (r: Option<&String>)
        ensures
            match r {
                Some(v) => fields_map(self.custom_fields@).contains_key(key@) && v@ == fields_map(
                    self.custom_fields@,
                )[key@],
                None => !fields_map(self.custom_fields@).contains_key(key@),
            },
    {
        fields::find_field(&self.custom_fields, key)
    }

    /// Appends one audit entry: the current time, a separator, the message.
    pub fn log_activity(&mut self, activity: String)
        ensures
            activity_appended(*old(self), *final(self), activity@),
    {
        let line = audit::stamp_line(activity.as_str());
        let ghost pre = self.activity_log@;
        self.activity_log.push(line);
        proof {
            assert(self.activity_log@.subrange(0, pre.len() as int) =~= pre);
        }
    }

    /// Stamps the modification time with the current clock.
    pub fn update_timestamp(&mut self)
        ensures
            frame_all(*old(self), *final(self)),
            final(self).activity_log == old(self).activity_log,
    {
        self.updated_at = audit::now_millis();
    }
}

} // verus!
