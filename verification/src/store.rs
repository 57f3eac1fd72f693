//! The location store: the key under which a SIP user's registration is
//! kept, and the store commands that register, unregister and look up a
//! user. The commands are executed against Redis by the caller; their effect
//! on the store's contents is given by `apply_command` and `command_reply`.
use vstd::prelude::*;

verus! {

/// A command for the location store.
#[derive(Clone, Debug)]
pub enum StoreCommand {
    /// Store `value` under `key`, to expire after `ttl_secs` seconds.
    SetWithExpiry { key: String, value: String, ttl_secs: u64 },
    /// Remove `key`.
    Delete { key: String },
    /// Read the value under `key`.
    Get { key: String },
}

/// What a read of the location store came back with.
#[derive(Clone, Debug)]
pub enum StoreRead {
    /// The key holds this contact.
    Found(String),
    /// The key holds nothing.
    Missing,
    /// The read failed.
    Failed,
}

/// The contact a read yields: the one found, and none when the key holds
/// nothing or the read failed (the user is then taken to be offline).
pub open spec fn read_contact(read: StoreRead) -> Option<Seq<char>> {
    match read {
        StoreRead::Found(c) => Some(c@),
        _ => None,
    }
}

/// The character sequence of an optional string.
pub open spec fn optional_text(o: Option<String>) -> Option<Seq<char>> {
    match o {
        Some(s) => Some(s@),
        None => None,
    }
}

/// A read that found a contact yields exactly that contact, whatever it
/// holds; a read that found nothing or failed yields none.
pub proof fn lemma_read_contact(contact: String)
    ensures
        read_contact(StoreRead::Found(contact)) == Some(contact@),
        read_contact(StoreRead::Missing) == None::<Seq<char>>,
        read_contact(StoreRead::Failed) == None::<Seq<char>>,
{
}

/// A store command over character sequences.
pub enum CommandView {
    SetWithExpiry { key: Seq<char>, value: Seq<char>, ttl_secs: u64 },
    Delete { key: Seq<char> },
    Get { key: Seq<char> },
}

impl View for StoreCommand {
    type V = CommandView;

    open spec fn view(&self) -> CommandView {
        match self {
            StoreCommand::SetWithExpiry { key, value, ttl_secs } => CommandView::SetWithExpiry {
                key: key@,
                value: value@,
                ttl_secs: *ttl_secs,
            },
            StoreCommand::Delete { key } => CommandView::Delete { key: key@ },
            StoreCommand::Get { key } => CommandView::Get { key: key@ },
        }
    }
}

/// The contents of the location store: for each key, the stored contact and
/// the time to live it was stored with.
pub type StoreContents = Map<Seq<char>, (Seq<char>, u64)>;

/// The contents after `cmd`: a set stores the value under its key, a delete
/// removes the key, a read changes nothing.
pub open spec fn apply_command(contents: StoreContents, cmd: CommandView) -> StoreContents {
    match cmd {
        CommandView::SetWithExpiry { key, value, ttl_secs } => contents.insert(key, (value, ttl_secs)),
        CommandView::Delete { key } => contents.remove(key),
        CommandView::Get { key } => contents,
    }
}

/// What a read returns on `contents`: the value under its key, if any.
/// Other commands return nothing.
pub open spec fn command_reply(contents: StoreContents, cmd: CommandView) -> Option<Seq<char>> {
    match cmd {
        CommandView::Get { key } => if contents.contains_key(key) {
            Some(contents[key].0)
        } else {
            None
        },
        _ => None,
    }
}

/// The key of the registration of `sip_uri`, whose user part is `username`:
/// `sip_reg:` followed by the user name, or by the whole URI when it has no
/// user name.
pub open spec fn registration_key(sip_uri: Seq<char>, username: Seq<char>) -> Seq<char> {
    if username.len() == 0 {
        "sip_reg:"@ + sip_uri
    } else {
        "sip_reg:"@ + username
    }
}

/// The command that records a REGISTER: a positive `expires` stores the
/// contact for that many seconds, zero or less removes the registration.
pub open spec fn register_command(
    sip_uri: Seq<char>,
    username: Seq<char>,
    contact_uri: Seq<char>,
    expires: i32,
) -> CommandView {
    if expires <= 0 {
        CommandView::Delete { key: registration_key(sip_uri, username) }
    } else {
        CommandView::SetWithExpiry {
            key: registration_key(sip_uri, username),
            value: contact_uri,
            ttl_secs: expires as u64,
        }
    }
}

/// The command that removes a registration.
pub open spec fn unregister_command(sip_uri: Seq<char>, username: Seq<char>) -> CommandView {
    CommandView::Delete { key: registration_key(sip_uri, username) }
}

/// The command that reads a registration.
pub open spec fn lookup_command(sip_uri: Seq<char>, username: Seq<char>) -> CommandView {
    CommandView::Get { key: registration_key(sip_uri, username) }
}

/// The key scheme and the command plans of the location store. Each method
/// takes the SIP URI together with its user part (the user name, empty when
/// the URI has none).
#[derive(Clone, Copy, Debug)]
pub struct RegistrationStore {}

impl RegistrationStore {
    /// A location store plan.
    pub fn new() -> (s: RegistrationStore) {
        RegistrationStore {  }
    }

    /// The key of the registration of `raw_uri`, whose user part is `username`.
    pub fn generate_key(&self, raw_uri: &str, username: &str) -> (key: String)
        ensures
            key@ == registration_key(raw_uri@, username@),
    {
        let mut key = String::from_str("sip_reg:");
        if username.is_empty() {
            key.append(raw_uri);
        } else {
            key.append(username);
        }
        key
    }

    /// The command that records a REGISTER of `sip_uri` at `contact_uri` for
    /// `expires` seconds.
    pub fn register_user(
        &self,
        sip_uri: &str,
        username: &str,
        contact_uri: &str,
        expires: i32,
    ) -> (cmd: StoreCommand)
        ensures
            cmd@ == register_command(sip_uri@, username@, contact_uri@, expires),
    {
        let key = self.generate_key(sip_uri, username);
        if expires <= 0 {
            StoreCommand::Delete { key }
        } else {
            StoreCommand::SetWithExpiry {
                key,
                value: contact_uri.to_owned(),
                ttl_secs: expires as u64,
            }
        }
    }

    /// The command that removes the registration of `sip_uri`.
    pub fn unregister_user(&self, sip_uri: &str, username: &str) -> (cmd: StoreCommand)
        ensures
            cmd@ == unregister_command(sip_uri@, username@),
    {
        StoreCommand::Delete { key: self.generate_key(sip_uri, username) }
    }

    /// The contact of a registration, from what its read came back with: a
    /// failed read is answered as a miss.
    pub fn contact_from_read(&self, read: StoreRead) -> (c: Option<String>)
        ensures
            optional_text(c) == read_contact(read),
            read matches StoreRead::Found(found) ==> c == Some(found),
            !(read is Found) ==> c is None,
    {
        match read {
            StoreRead::Found(c) => Some(c),
            StoreRead::Missing => None,
            StoreRead::Failed => None,
        }
    }

    /// The command that reads the registration of `sip_uri`.
    pub fn lookup_user(&self, sip_uri: &str, username: &str) -> (cmd: StoreCommand)
        ensures
            cmd@ == lookup_command(sip_uri@, username@),
    {
        StoreCommand::Get { key: self.generate_key(sip_uri, username) }
    }
}

/// A lookup after a REGISTER with a positive `expires` returns the contact
/// just registered, stored with `expires` as its time to live, whatever the
/// store held before. The model has no clock: the read-back holds until that
/// time to live runs out, when the store drops the key.
pub proof fn lemma_lookup_after_register(
    contents: StoreContents,
    sip_uri: Seq<char>,
    username: Seq<char>,
    contact_uri: Seq<char>,
    expires: i32,
)
    requires
        expires > 0,
    ensures
        command_reply(
            apply_command(contents, register_command(sip_uri, username, contact_uri, expires)),
            lookup_command(sip_uri, username),
        ) == Some(contact_uri),
        apply_command(
            contents,
            register_command(sip_uri, username, contact_uri, expires),
        )[registration_key(sip_uri, username)] == (contact_uri, expires as u64),
{
}

/// A lookup after a REGISTER with `expires` zero or less finds nothing.
pub proof fn lemma_lookup_after_expiring_register(
    contents: StoreContents,
    sip_uri: Seq<char>,
    username: Seq<char>,
    contact_uri: Seq<char>,
    expires: i32,
)
    requires
        expires <= 0,
    ensures
        command_reply(
            apply_command(contents, register_command(sip_uri, username, contact_uri, expires)),
            lookup_command(sip_uri, username),
        ) is None,
{
}

/// A lookup after an unregister finds nothing.
pub proof fn lemma_lookup_after_unregister(
    contents: StoreContents,
    sip_uri: Seq<char>,
    username: Seq<char>,
)
    ensures
        command_reply(
            apply_command(contents, unregister_command(sip_uri, username)),
            lookup_command(sip_uri, username),
        ) is None,
{
}

/// A REGISTER with `expires` zero or less is the same command as an
/// unregister of the URI.
pub proof fn lemma_expiring_register_is_unregister(
    sip_uri: Seq<char>,
    username: Seq<char>,
    contact_uri: Seq<char>,
    expires: i32,
)
    requires
        expires <= 0,
    ensures
        register_command(sip_uri, username, contact_uri, expires) == unregister_command(
            sip_uri,
            username,
        ),
{
}

/// A lookup changes nothing in the store.
pub proof fn lemma_lookup_changes_nothing(
    contents: StoreContents,
    sip_uri: Seq<char>,
    username: Seq<char>,
)
    ensures
        apply_command(contents, lookup_command(sip_uri, username)) == contents,
{
}

/// Registering or unregistering one URI leaves what a lookup of any URI with
/// another key returns unchanged.
pub proof fn lemma_other_registrations_unchanged(
    contents: StoreContents,
    sip_uri: Seq<char>,
    username: Seq<char>,
    contact_uri: Seq<char>,
    expires: i32,
    other_uri: Seq<char>,
    other_username: Seq<char>,
)
    requires
        registration_key(other_uri, other_username) != registration_key(sip_uri, username),
    ensures
        command_reply(
            apply_command(contents, register_command(sip_uri, username, contact_uri, expires)),
            lookup_command(other_uri, other_username),
        ) == command_reply(contents, lookup_command(other_uri, other_username)),
        command_reply(
            apply_command(contents, unregister_command(sip_uri, username)),
            lookup_command(other_uri, other_username),
        ) == command_reply(contents, lookup_command(other_uri, other_username)),
{
}

/// Two URIs with the same (non-empty) user name share one registration key.
pub proof fn lemma_same_user_same_key(sip_uri: Seq<char>, other_uri: Seq<char>, username: Seq<char>)
    requires
        username.len() > 0,
    ensures
        registration_key(sip_uri, username) == registration_key(other_uri, username),
{
}

/// URIs with different non-empty user names have different registration keys.
pub proof fn lemma_distinct_users_distinct_keys(
    sip_uri: Seq<char>,
    username: Seq<char>,
    other_uri: Seq<char>,
    other_username: Seq<char>,
)
    requires
        username.len() > 0,
        other_username.len() > 0,
        username != other_username,
    ensures
        registration_key(sip_uri, username) != registration_key(other_uri, other_username),
{
    let p = "sip_reg:"@;
    if registration_key(sip_uri, username) == registration_key(other_uri, other_username) {
        assert((p + username).skip(p.len() as int) =~= username);
        assert((p + other_username).skip(p.len() as int) =~= other_username);
    }
}

/// The registration key is `sip_reg:` followed by the user name, or by the
/// whole URI when there is no user name: eight characters of prefix, then
/// exactly that text.
pub proof fn lemma_registration_key_shape(sip_uri: Seq<char>, username: Seq<char>)
    ensures
        registration_key(sip_uri, username).take(8) == seq!['s', 'i', 'p', '_', 'r', 'e', 'g', ':'],
        username.len() > 0 ==> registration_key(sip_uri, username).skip(8) == username,
        username.len() == 0 ==> registration_key(sip_uri, username).skip(8) == sip_uri,
{
    reveal_strlit("sip_reg:");
    let p = "sip_reg:"@;
    assert(p =~= seq!['s', 'i', 'p', '_', 'r', 'e', 'g', ':']);
    let k = registration_key(sip_uri, username);
    assert(k.take(8) =~= p);
    if username.len() > 0 {
        assert(k.skip(8) =~= username);
    } else {
        assert(k.skip(8) =~= sip_uri);
    }
}

/// A REGISTER with a positive `expires` stores exactly the given contact
/// under the user's key for `expires` seconds; one with zero or less deletes
/// that key.
pub proof fn lemma_register_command_shape(
    sip_uri: Seq<char>,
    username: Seq<char>,
    contact_uri: Seq<char>,
    expires: i32,
)
    ensures
        expires > 0 ==> register_command(sip_uri, username, contact_uri, expires)
            == (CommandView::SetWithExpiry {
            key: registration_key(sip_uri, username),
            value: contact_uri,
            ttl_secs: expires as u64,
        }),
        expires > 0 ==> (expires as u64) as int == expires as int,
        expires <= 0 ==> register_command(sip_uri, username, contact_uri, expires)
            == (CommandView::Delete { key: registration_key(sip_uri, username) }),
        unregister_command(sip_uri, username) == (CommandView::Delete {
            key: registration_key(sip_uri, username),
        }),
        lookup_command(sip_uri, username) == (CommandView::Get {
            key: registration_key(sip_uri, username),
        }),
{
}

} // verus!
