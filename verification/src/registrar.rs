//! The decisions of the registrar gRPC service. Each request is handled in
//! steps: a step says what to do next (ask the user service, run a store
//! command, answer), and the caller performs it and hands the outcome to the
//! next step.
use vstd::prelude::*;

use crate::error::{Code, Status};
use crate::store::{
    command_reply, apply_command, lookup_command, optional_text, read_contact, register_command,
    unregister_command, RegistrationStore, StoreCommand, StoreContents, StoreRead,
};

verus! {

/// A REGISTER request: bind `sip_uri` to `contact_uri` for `expires` seconds.
#[derive(Clone, Debug)]
pub struct RegisterRequest {
    pub sip_uri: String,
    pub contact_uri: String,
    pub expires: i32,
}

/// The answer to an accepted REGISTER.
#[derive(Clone, Copy, Debug, PartialEq, Eq, Structural)]
pub struct RegisterResponse {
    pub success: bool,
}

/// A request to remove the registration of `sip_uri`.
#[derive(Clone, Debug)]
pub struct UnregisterRequest {
    pub sip_uri: String,
}

/// The answer to an unregister request.
#[derive(Clone, Copy, Debug, PartialEq, Eq, Structural)]
pub struct UnregisterResponse {
    pub success: bool,
}

/// A request for the contacts registered for `sip_uri`.
#[derive(Clone, Debug)]
pub struct LookupContactRequest {
    pub sip_uri: String,
}

/// The contacts registered for a URI.
#[derive(Clone, Debug)]
pub struct LookupContactResponse {
    pub contact_uris: Vec<String>,
}

/// A query to the user service for the SIP credentials of a user, to be sent
/// with a deadline and the request's trace id.
#[derive(Clone, Debug)]
pub struct CredentialsQuery {
    pub sip_username: String,
    pub realm: String,
    pub timeout_secs: u64,
    pub trace_id: String,
}

/// The next step in handling a REGISTER.
#[derive(Clone, Debug)]
pub enum RegisterStep {
    /// Answer with this status.
    Reject(Status),
    /// Ask the user service whether the user's credentials exist.
    CheckCredentials(CredentialsQuery),
    /// Run this command against the location store.
    Store(StoreCommand),
    /// Answer with this response.
    Accept(RegisterResponse),
}

/// The contacts a lookup answers with, given what the store read returned.
pub open spec fn lookup_contacts(reply: Option<Seq<char>>) -> Seq<Seq<char>> {
    match reply {
        Some(c) => seq![c],
        None => Seq::empty(),
    }
}

/// The trace id of a request: the value of its `x-trace-id` header when that
/// is present and readable as text, `unknown` otherwise.
pub open spec fn trace_id_of(header: Option<String>) -> Seq<char> {
    match header {
        Some(v) => v@,
        None => "unknown"@,
    }
}

/// The registrar service: the location store plan and the SIP realm that
/// credentials are checked in.
#[derive(Clone, Debug)]
pub struct MyRegistrarService {
    pub store: RegistrationStore,
    pub sip_realm: String,
}

impl MyRegistrarService {
    /// A registrar over `store` for the realm `sip_realm`.
    pub fn new(store: RegistrationStore, sip_realm: String) -> (s: MyRegistrarService)
        ensures
            s.store == store,
            s.sip_realm == sip_realm,
    {
        MyRegistrarService { store, sip_realm }
    }

    /// The trace id of a request, from its readable `x-trace-id` header value.
    pub fn extract_trace_id(header: Option<String>) -> (id: String)
        ensures
            id@ == trace_id_of(header),
    {
        match header {
            Some(v) => v,
            None => String::from_str("unknown"),
        }
    }

    /// The first step of a REGISTER of a URI whose user part is `username`:
    /// a URI without a user name is refused as an invalid argument; otherwise
    /// the user's credentials are checked in the service's realm, with a five
    /// second deadline, carrying the trace id.
    pub fn register_start(&self, username: &str, trace_id: &str) -> (step: RegisterStep)
        ensures
            username@.len() == 0 ==> (step matches RegisterStep::Reject(s)
                && s.code == Code::InvalidArgument && s.message@ == "Invalid SIP URI"@),
            username@.len() > 0 ==> (step matches RegisterStep::CheckCredentials(q)
                && q.sip_username@ == username@ && q.realm@ == self.sip_realm@
                && q.timeout_secs == 5 && q.trace_id@ == trace_id@),
    {
        if username.is_empty() {
            RegisterStep::Reject(Status::invalid_argument(String::from_str("Invalid SIP URI")))
        } else {
            RegisterStep::CheckCredentials(
                CredentialsQuery {
                    sip_username: username.to_owned(),
                    realm: self.sip_realm.clone(),
                    timeout_secs: 5,
                    trace_id: trace_id.to_owned(),
                },
            )
        }
    }

    /// The step after the user service answered, which `register_start` asks
    /// for only when the URI has a user name: unknown credentials are refused
    /// as unauthenticated; otherwise the registration is written to the
    /// location store.
    pub fn register_credentials_checked(
        &self,
        req: &RegisterRequest,
        username: &str,
        credentials_found: bool,
    ) -> (step: RegisterStep)
        requires
            username@.len() > 0,
        ensures
            !credentials_found ==> (step matches RegisterStep::Reject(s)
                && s.code == Code::Unauthenticated && s.message@ == "Invalid credentials"@),
            credentials_found ==> (step matches RegisterStep::Store(cmd) && cmd@ == register_command(
                req.sip_uri@,
                username@,
                req.contact_uri@,
                req.expires,
            )),
    {
        if !credentials_found {
            RegisterStep::Reject(Status::unauthenticated(String::from_str("Invalid credentials")))
        } else {
            RegisterStep::Store(
                self.store.register_user(
                    req.sip_uri.as_str(),
                    username,
                    req.contact_uri.as_str(),
                    req.expires,
                ),
            )
        }
    }

    /// The step after the store write: a failed write is an internal error;
    /// otherwise the REGISTER succeeded.
    pub fn register_stored(&self, stored: bool) -> (step: RegisterStep)
        ensures
            !stored ==> (step matches RegisterStep::Reject(s) && s.code == Code::Internal
                && s.message@ == "Location store failure"@),
            stored ==> (step matches RegisterStep::Accept(r) && r.success),
    {
        if !stored {
            RegisterStep::Reject(Status::internal(String::from_str("Location store failure")))
        } else {
            RegisterStep::Accept(RegisterResponse { success: true })
        }
    }

    /// The store command that carries out an unregister request.
    pub fn unregister_start(&self, req: &UnregisterRequest, username: &str) -> (cmd: StoreCommand)
        ensures
            cmd@ == unregister_command(req.sip_uri@, username@),
    {
        self.store.unregister_user(req.sip_uri.as_str(), username)
    }

    /// The answer to an unregister request once the store command ran: a
    /// failed command is an internal error.
    pub fn unregister_finished(&self, removed: bool) -> (r: Result<UnregisterResponse, Status>)
        ensures
            removed ==> r == Ok::<UnregisterResponse, Status>(UnregisterResponse { success: true }),
            !removed ==> (r matches Err(s) && s.code == Code::Internal
                && s.message@ == "Location store failure"@),
    {
        if !removed {
            Err(Status::internal(String::from_str("Location store failure")))
        } else {
            Ok(UnregisterResponse { success: true })
        }
    }

    /// The store command that carries out a lookup request.
    pub fn lookup_start(&self, req: &LookupContactRequest, username: &str) -> (cmd: StoreCommand)
        ensures
            cmd@ == lookup_command(req.sip_uri@, username@),
    {
        self.store.lookup_user(req.sip_uri.as_str(), username)
    }

    /// The answer to a lookup, given what the store read came back with: the
    /// contact found, or no contact when the key holds nothing or the read
    /// failed.
    pub fn lookup_finished(&self, read: StoreRead) -> (r: LookupContactResponse)
        ensures
            r.contact_uris@.map_values(|s: String| s@) == lookup_contacts(read_contact(read)),
            read matches StoreRead::Found(found) ==> r.contact_uris@ == seq![found],
            !(read is Found) ==> r.contact_uris@.len() == 0,
    {
        let contact = self.store.contact_from_read(read);
        let mut contact_uris: Vec<String> = Vec::new();
        match contact {
            Some(c) => {
                contact_uris.push(c);
            },
            None => {},
        }
        let r = LookupContactResponse { contact_uris };
        assert(read matches StoreRead::Found(found) ==> r.contact_uris@ =~= seq![found]);
        assert(r.contact_uris@.map_values(|s: String| s@) =~= lookup_contacts(
            optional_text(contact),
        ));
        r
    }
}

/// A lookup whose read found a contact answers with exactly that one
/// contact, whatever it holds; a lookup whose read found nothing or failed
/// answers with no contact.
pub proof fn lemma_lookup_answers_what_was_read(contact: String)
    ensures
        lookup_contacts(read_contact(StoreRead::Found(contact))) == seq![contact@],
        lookup_contacts(read_contact(StoreRead::Missing)).len() == 0,
        lookup_contacts(read_contact(StoreRead::Failed)).len() == 0,
{
}

/// The trace id is the header's value when there is one, and `unknown`
/// otherwise.
pub proof fn lemma_trace_id(value: String)
    ensures
        trace_id_of(Some(value)) == value@,
        trace_id_of(None) == seq!['u', 'n', 'k', 'n', 'o', 'w', 'n'],
{
    reveal_strlit("unknown");
    assert("unknown"@ =~= seq!['u', 'n', 'k', 'n', 'o', 'w', 'n']);
}

/// After a REGISTER with a user name and a positive `expires` has passed its
/// credentials check and its store write has run, a lookup of the same URI
/// answers with exactly the registered contact, until the registration's
/// time to live runs out.
pub proof fn lemma_registered_contact_is_looked_up(
    contents: StoreContents,
    sip_uri: Seq<char>,
    username: Seq<char>,
    contact_uri: Seq<char>,
    expires: i32,
)
    requires
        expires > 0,
    ensures
        lookup_contacts(
            command_reply(
                apply_command(contents, register_command(sip_uri, username, contact_uri, expires)),
                lookup_command(sip_uri, username),
            ),
        ) == seq![contact_uri],
{
}

/// After an unregister has run, a lookup of the same URI answers with no
/// contact.
pub proof fn lemma_unregistered_contact_is_gone(
    contents: StoreContents,
    sip_uri: Seq<char>,
    username: Seq<char>,
)
    ensures
        lookup_contacts(
            command_reply(
                apply_command(contents, unregister_command(sip_uri, username)),
                lookup_command(sip_uri, username),
            ),
        ) == Seq::<Seq<char>>::empty(),
{
}

} // verus!
