//! The persisted entity model: one struct per table row, the status
//! enumerations stored as small integer codes, and the constructors that
//! derive row identity.
//!
//! Status codes are decoded fail-closed: an unrecognized integer yields
//! `None` rather than silently defaulting. All cryptographic content
//! (`content`, `payload`, `vmac_session_data`, `contact`) is carried as
//! opaque bytes the store never interprets.

use vstd::prelude::*;
use vstd::slice::slice_to_vec;
use crate::contact::{Contact, contact_bytes_of, valid_contact_bytes, bundle_of};
use crate::errors::ContactError;
use crate::ids::{hex_of, sha256_of, inbound_id_of, payload_id_of, payload_id, inbound_id};
use vstd::string::StringExecFns;

verus! {

/// Copy a byte vector; the copy's view equals the source's.
pub(crate) fn clone_bytes(v: &Vec<u8>) -> (r: Vec<u8>)
    ensures
        r@ == v@,
{
    slice_to_vec(v.as_slice())
}

/// Byte-vector equality over the views.
pub(crate) fn bytes_eq(a: &Vec<u8>, b: &Vec<u8>) -> (r: bool)
    ensures
        r == (a@ == b@),
{
    if a.len() != b.len() {
        return false;
    }
    let mut i: usize = 0;
    while i < a.len()
        invariant
            a@.len() == b@.len(),
            i <= a@.len(),
            forall|j: int| 0 <= j < i ==> a@[j] == b@[j],
        decreases a@.len() - i,
    {
        if a[i] != b[i] {
            return false;
        }
        i = i + 1;
    }
    proof {
        assert(a@ =~= b@);
    }
    true
}

/// Current wall-clock time in nanoseconds since the Unix epoch.
///
/// Relies on std::time::SystemTime for the clock reading; the rest of the
/// body converts the reading to nanoseconds. The result depends on the
/// system clock, so nothing is promised of it: callers hand the value to the
/// store explicitly and every contract is stated over that argument.
#[verifier::external_body]
pub fn now() -> i64 {
    let start = std::time::SystemTime::now();
    start.duration_since(std::time::UNIX_EPOCH).expect("Time went backwards").as_nanos() as i64
}

/// Conversation lifecycle states. `Uninitialized` moves to `Invited` when the
/// local party sends the first invite, or to `InviteReceived` when the remote
/// party's invite arrives first; both are stable.
#[derive(Clone, Copy, Debug, PartialEq, Eq, Structural)]
pub enum ConversationState {
    Uninitialized,
    Invited,
    InviteReceived,
}

impl ConversationState {
    /// The integer code this state is stored as.
    pub open spec fn code_spec(self) -> i32 {
        match self {
            ConversationState::Uninitialized => 0,
            ConversationState::Invited => 10,
            ConversationState::InviteReceived => 20,
        }
    }

    pub fn to_code(self) -> (c: i32)
        ensures
            c == self.code_spec(),
    {
        match self {
            ConversationState::Uninitialized => 0,
            ConversationState::Invited => 10,
            ConversationState::InviteReceived => 20,
        }
    }

    /// Decode a stored code, failing closed on unrecognized values.
    pub fn from_code(c: i32) -> (r: Option<ConversationState>)
        ensures
            match r {
                Some(s) => s.code_spec() == c,
                None => !(c == 0 || c == 10 || c == 20),
            },
    {
        if c == 0 {
            Some(ConversationState::Uninitialized)
        } else if c == 10 {
            Some(ConversationState::Invited)
        } else if c == 20 {
            Some(ConversationState::InviteReceived)
        } else {
            None
        }
    }
}

/// Message lifecycle states, stored as increasing integer codes: state only
/// ever advances along `Unprocessed`, `LocallyCommitted`, `Received`, and
/// `Received` is terminal.
#[derive(Clone, Copy, Debug, PartialEq, Eq, Structural)]
pub enum MessageState {
    Unprocessed,
    LocallyCommitted,
    Received,
}

impl MessageState {
    /// The integer code this state is stored as; codes increase along the
    /// lifecycle, so a larger code is a later state.
    pub open spec fn code_spec(self) -> i32 {
        match self {
            MessageState::Unprocessed => 0,
            MessageState::LocallyCommitted => 10,
            MessageState::Received => 20,
        }
    }

    pub fn to_code(self) -> (c: i32)
        ensures
            c == self.code_spec(),
    {
        match self {
            MessageState::Unprocessed => 0,
            MessageState::LocallyCommitted => 10,
            MessageState::Received => 20,
        }
    }

    /// Decode a stored code, failing closed on unrecognized values.
    pub fn from_code(c: i32) -> (r: Option<MessageState>)
        ensures
            match r {
                Some(s) => s.code_spec() == c,
                None => !(c == 0 || c == 10 || c == 20),
            },
    {
        if c == 0 {
            Some(MessageState::Unprocessed)
        } else if c == 10 {
            Some(MessageState::LocallyCommitted)
        } else if c == 20 {
            Some(MessageState::Received)
        } else {
            None
        }
    }
}

/// Outbound delivery states: a payload is `Pending` until the network
/// collaborator's acknowledgment is recorded, and `ServerAcknowledged` is
/// terminal.
#[derive(Clone, Copy, Debug, PartialEq, Eq, Structural)]
pub enum OutboundPayloadState {
    Pending,
    ServerAcknowledged,
}

impl OutboundPayloadState {
    /// The integer code this state is stored as; the terminal state has the
    /// larger code.
    pub open spec fn code_spec(self) -> i32 {
        match self {
            OutboundPayloadState::Pending => 0,
            OutboundPayloadState::ServerAcknowledged => 10,
        }
    }

    pub fn to_code(self) -> (c: i32)
        ensures
            c == self.code_spec(),
    {
        match self {
            OutboundPayloadState::Pending => 0,
            OutboundPayloadState::ServerAcknowledged => 10,
        }
    }

    /// Decode a stored code, failing closed on unrecognized values.
    pub fn from_code(c: i32) -> (r: Option<OutboundPayloadState>)
        ensures
            match r {
                Some(s) => s.code_spec() == c,
                None => !(c == 0 || c == 10),
            },
    {
        if c == 0 {
            Some(OutboundPayloadState::Pending)
        } else if c == 10 {
            Some(OutboundPayloadState::ServerAcknowledged)
        } else {
            None
        }
    }
}

/// Intake status of an inbound invite. `Pending` rows await the decrypting
/// collaborator; `DecryptionFailure` is transient and may be retried;
/// `Processed` and `Invalid` are terminal.
#[derive(Clone, Copy, Debug, PartialEq, Eq, Structural)]
pub enum InboundInviteStatus {
    Pending,
    Processed,
    DecryptionFailure,
    Invalid,
}

impl InboundInviteStatus {
    /// The integer code this status is stored as.
    pub open spec fn code_spec(self) -> i16 {
        match self {
            InboundInviteStatus::Pending => 0,
            InboundInviteStatus::Processed => 1,
            InboundInviteStatus::DecryptionFailure => 2,
            InboundInviteStatus::Invalid => 3,
        }
    }

    pub fn to_code(self) -> (c: i16)
        ensures
            c == self.code_spec(),
    {
        match self {
            InboundInviteStatus::Pending => 0,
            InboundInviteStatus::Processed => 1,
            InboundInviteStatus::DecryptionFailure => 2,
            InboundInviteStatus::Invalid => 3,
        }
    }

    /// Decode a stored code, failing closed on unrecognized values.
    pub fn from_code(c: i16) -> (r: Option<InboundInviteStatus>)
        ensures
            match r {
                Some(s) => s.code_spec() == c,
                None => !(c == 0 || c == 1 || c == 2 || c == 3),
            },
    {
        if c == 0 {
            Some(InboundInviteStatus::Pending)
        } else if c == 1 {
            Some(InboundInviteStatus::Processed)
        } else if c == 2 {
            Some(InboundInviteStatus::DecryptionFailure)
        } else if c == 3 {
            Some(InboundInviteStatus::Invalid)
        } else {
            None
        }
    }
}

/// Intake status of an inbound message; the same discipline as
/// [`InboundInviteStatus`].
#[derive(Clone, Copy, Debug, PartialEq, Eq, Structural)]
pub enum InboundMessageStatus {
    Pending,
    Processed,
    DecryptionFailure,
    Invalid,
}

impl InboundMessageStatus {
    /// The integer code this status is stored as.
    pub open spec fn code_spec(self) -> i16 {
        match self {
            InboundMessageStatus::Pending => 0,
            InboundMessageStatus::Processed => 1,
            InboundMessageStatus::DecryptionFailure => 2,
            InboundMessageStatus::Invalid => 3,
        }
    }

    pub fn to_code(self) -> (c: i16)
        ensures
            c == self.code_spec(),
    {
        match self {
            InboundMessageStatus::Pending => 0,
            InboundMessageStatus::Processed => 1,
            InboundMessageStatus::DecryptionFailure => 2,
            InboundMessageStatus::Invalid => 3,
        }
    }

    /// Decode a stored code, failing closed on unrecognized values.
    pub fn from_code(c: i16) -> (r: Option<InboundMessageStatus>)
        ensures
            match r {
                Some(s) => s.code_spec() == c,
                None => !(c == 0 || c == 1 || c == 2 || c == 3),
            },
    {
        if c == 0 {
            Some(InboundMessageStatus::Pending)
        } else if c == 1 {
            Some(InboundMessageStatus::Processed)
        } else if c == 2 {
            Some(InboundMessageStatus::DecryptionFailure)
        } else if c == 3 {
            Some(InboundMessageStatus::Invalid)
        } else {
            None
        }
    }
}

/// The kinds of refresh job the store keeps a watermark for.
#[derive(Clone, Copy, Debug, PartialEq, Eq, Structural)]
pub enum RefreshJobKind {
    Invite,
    Message,
}

impl RefreshJobKind {
    /// The row key this job kind is stored under.
    pub open spec fn label_spec(self) -> Seq<char> {
        match self {
            RefreshJobKind::Invite => "invite"@,
            RefreshJobKind::Message => "message"@,
        }
    }

    /// The row key this job kind is stored under.
    pub fn label(&self) -> (r: String)
        ensures
            r@ == self.label_spec(),
    {
        match self {
            RefreshJobKind::Invite => String::from_str("invite"),
            RefreshJobKind::Message => String::from_str("message"),
        }
    }
}

/// A wallet identity, local or remote.
#[derive(Debug, PartialEq)]
pub struct StoredUser {
    pub user_address: String,
    pub created_at: i64,
    pub last_refreshed: i64,
}

pub struct StoredUserV {
    pub user_address: Seq<char>,
    pub created_at: i64,
    pub last_refreshed: i64,
}

impl View for StoredUser {
    type V = StoredUserV;

    open spec fn view(&self) -> StoredUserV {
        StoredUserV {
            user_address: self.user_address@,
            created_at: self.created_at,
            last_refreshed: self.last_refreshed,
        }
    }
}

impl Clone for StoredUser {
    fn clone(&self) -> (res: Self)
        ensures
            res@ == self@,
    {
        StoredUser {
            user_address: self.user_address.clone(),
            created_at: self.created_at,
            last_refreshed: self.last_refreshed,
        }
    }
}

/// A conversation with one peer; `convo_state` holds a
/// [`ConversationState`] code.
#[derive(Debug, PartialEq)]
pub struct StoredConversation {
    pub convo_id: String,
    pub peer_address: String,
    pub created_at: i64,
    pub convo_state: i32,
}

pub struct StoredConversationV {
    pub convo_id: Seq<char>,
    pub peer_address: Seq<char>,
    pub created_at: i64,
    pub convo_state: i32,
}

impl View for StoredConversation {
    type V = StoredConversationV;

    open spec fn view(&self) -> StoredConversationV {
        StoredConversationV {
            convo_id: self.convo_id@,
            peer_address: self.peer_address@,
            created_at: self.created_at,
            convo_state: self.convo_state,
        }
    }
}

impl Clone for StoredConversation {
    fn clone(&self) -> (res: Self)
        ensures
            res@ == self@,
    {
        StoredConversation {
            convo_id: self.convo_id.clone(),
            peer_address: self.peer_address.clone(),
            created_at: self.created_at,
            convo_state: self.convo_state,
        }
    }
}

/// A message as returned from the store, with its store-assigned `id`;
/// `state` holds a [`MessageState`] code and `content` is opaque bytes.
#[derive(Debug, PartialEq)]
pub struct StoredMessage {
    pub id: i32,
    pub created_at: i64,
    pub sent_at_ns: i64,
    pub convo_id: String,
    pub addr_from: String,
    pub content: Vec<u8>,
    pub state: i32,
}

pub struct StoredMessageV {
    pub id: i32,
    pub created_at: i64,
    pub sent_at_ns: i64,
    pub convo_id: Seq<char>,
    pub addr_from: Seq<char>,
    pub content: Seq<u8>,
    pub state: i32,
}

impl View for StoredMessage {
    type V = StoredMessageV;

    open spec fn view(&self) -> StoredMessageV {
        StoredMessageV {
            id: self.id,
            created_at: self.created_at,
            sent_at_ns: self.sent_at_ns,
            convo_id: self.convo_id@,
            addr_from: self.addr_from@,
            content: self.content@,
            state: self.state,
        }
    }
}

impl Clone for StoredMessage {
    fn clone(&self) -> (res: Self)
        ensures
            res@ == self@,
    {
        StoredMessage {
            id: self.id,
            created_at: self.created_at,
            sent_at_ns: self.sent_at_ns,
            convo_id: self.convo_id.clone(),
            addr_from: self.addr_from.clone(),
            content: clone_bytes(&self.content),
            state: self.state,
        }
    }
}

/// A message being handed to the store; the same fields as
/// [`StoredMessage`] except the store-assigned `id`.
#[derive(Debug, PartialEq)]
pub struct NewStoredMessage {
    pub created_at: i64,
    pub sent_at_ns: i64,
    pub convo_id: String,
    pub addr_from: String,
    pub content: Vec<u8>,
    pub state: i32,
}

pub struct NewStoredMessageV {
    pub created_at: i64,
    pub sent_at_ns: i64,
    pub convo_id: Seq<char>,
    pub addr_from: Seq<char>,
    pub content: Seq<u8>,
    pub state: i32,
}

impl View for NewStoredMessage {
    type V = NewStoredMessageV;

    open spec fn view(&self) -> NewStoredMessageV {
        NewStoredMessageV {
            created_at: self.created_at,
            sent_at_ns: self.sent_at_ns,
            convo_id: self.convo_id@,
            addr_from: self.addr_from@,
            content: self.content@,
            state: self.state,
        }
    }
}

impl Clone for NewStoredMessage {
    fn clone(&self) -> (res: Self)
        ensures
            res@ == self@,
    {
        NewStoredMessage {
            created_at: self.created_at,
            sent_at_ns: self.sent_at_ns,
            convo_id: self.convo_id.clone(),
            addr_from: self.addr_from.clone(),
            content: clone_bytes(&self.content),
            state: self.state,
        }
    }
}

impl NewStoredMessage {
    /// Assemble a new message row; `now_ns` is the local receipt time, kept
    /// apart from the protocol time `sent_at_ns`.
    pub fn new(
        convo_id: String,
        addr_from: String,
        content: Vec<u8>,
        state: i32,
        sent_at_ns: i64,
        now_ns: i64,
    ) -> (m: Self)
        ensures
            m.created_at == now_ns,
            m.sent_at_ns == sent_at_ns,
            m.convo_id@ == convo_id@,
            m.addr_from@ == addr_from@,
            m.content@ == content@,
            m.state == state,
    {
        Self { created_at: now_ns, convo_id, sent_at_ns, addr_from, content, state }
    }

    /// Equality with a stored row, defined over all fields except the
    /// store-assigned `id`.
    pub fn matches_stored(&self, other: &StoredMessage) -> (r: bool)
        ensures
            r == (self.created_at == other.created_at && self.sent_at_ns == other.sent_at_ns
                && self.convo_id@ == other.convo_id@ && self.addr_from@ == other.addr_from@
                && self.content@ == other.content@ && self.state == other.state),
    {
        self.created_at == other.created_at && self.sent_at_ns == other.sent_at_ns
            && self.convo_id == other.convo_id && self.addr_from == other.addr_from
            && self.state == other.state && bytes_eq(&self.content, &other.content)
    }
}

/// A payload awaiting network delivery. `payload_id` is derived from
/// `(created_at_ns, content_topic)`, `outbound_payload_state` holds an
/// [`OutboundPayloadState`] code, and `locked_until_ns` is the delivery
/// lease expiry.
#[derive(Debug, PartialEq)]
pub struct StoredOutboundPayload {
    pub payload_id: String,
    pub created_at_ns: i64,
    pub content_topic: String,
    pub payload: Vec<u8>,
    pub outbound_payload_state: i32,
    pub locked_until_ns: i64,
}

pub struct StoredOutboundPayloadV {
    pub payload_id: Seq<char>,
    pub created_at_ns: i64,
    pub content_topic: Seq<char>,
    pub payload: Seq<u8>,
    pub outbound_payload_state: i32,
    pub locked_until_ns: i64,
}

impl View for StoredOutboundPayload {
    type V = StoredOutboundPayloadV;

    open spec fn view(&self) -> StoredOutboundPayloadV {
        StoredOutboundPayloadV {
            payload_id: self.payload_id@,
            created_at_ns: self.created_at_ns,
            content_topic: self.content_topic@,
            payload: self.payload@,
            outbound_payload_state: self.outbound_payload_state,
            locked_until_ns: self.locked_until_ns,
        }
    }
}

impl Clone for StoredOutboundPayload {
    fn clone(&self) -> (res: Self)
        ensures
            res@ == self@,
    {
        StoredOutboundPayload {
            payload_id: self.payload_id.clone(),
            created_at_ns: self.created_at_ns,
            content_topic: self.content_topic.clone(),
            payload: clone_bytes(&self.payload),
            outbound_payload_state: self.outbound_payload_state,
            locked_until_ns: self.locked_until_ns,
        }
    }
}

impl StoredOutboundPayload {
    /// Assemble an outbound payload row, deriving `payload_id` from the
    /// creation time and topic so that resubmitting the same logical payload
    /// derives the same key.
    pub fn new(
        created_at_ns: i64,
        content_topic: String,
        payload: Vec<u8>,
        outbound_payload_state: i32,
        locked_until_ns: i64,
    ) -> (p: Self)
        ensures
            p.payload_id@ == payload_id_of(created_at_ns, content_topic@),
            p.created_at_ns == created_at_ns,
            p.content_topic@ == content_topic@,
            p.payload@ == payload@,
            p.outbound_payload_state == outbound_payload_state,
            p.locked_until_ns == locked_until_ns,
    {
        let payload_id = payload_id(created_at_ns, content_topic.as_str());
        Self {
            payload_id,
            created_at_ns,
            content_topic,
            payload,
            outbound_payload_state,
            locked_until_ns,
        }
    }
}

/// The cryptographic session shared with one peer installation;
/// `vmac_session_data` is the opaque ratchet state, owned by the crypto
/// layer and never interpreted here.
#[derive(Debug, PartialEq)]
pub struct StoredSession {
    pub session_id: String,
    pub created_at: i64,
    pub updated_at: i64,
    pub peer_installation_id: String,
    pub vmac_session_data: Vec<u8>,
    pub user_address: String,
}

pub struct StoredSessionV {
    pub session_id: Seq<char>,
    pub created_at: i64,
    pub updated_at: i64,
    pub peer_installation_id: Seq<char>,
    pub vmac_session_data: Seq<u8>,
    pub user_address: Seq<char>,
}

impl View for StoredSession {
    type V = StoredSessionV;

    open spec fn view(&self) -> StoredSessionV {
        StoredSessionV {
            session_id: self.session_id@,
            created_at: self.created_at,
            updated_at: self.updated_at,
            peer_installation_id: self.peer_installation_id@,
            vmac_session_data: self.vmac_session_data@,
            user_address: self.user_address@,
        }
    }
}

impl Clone for StoredSession {
    fn clone(&self) -> (res: Self)
        ensures
            res@ == self@,
    {
        StoredSession {
            session_id: self.session_id.clone(),
            created_at: self.created_at,
            updated_at: self.updated_at,
            peer_installation_id: self.peer_installation_id.clone(),
            vmac_session_data: clone_bytes(&self.vmac_session_data),
            user_address: self.user_address.clone(),
        }
    }
}

impl StoredSession {
    /// Assemble a fresh session row; creation and update time start equal.
    pub fn new(
        session_id: String,
        peer_installation_id: String,
        vmac_session_data: Vec<u8>,
        user_address: String,
        now_ns: i64,
    ) -> (s: Self)
        ensures
            s.session_id@ == session_id@,
            s.peer_installation_id@ == peer_installation_id@,
            s.vmac_session_data@ == vmac_session_data@,
            s.user_address@ == user_address@,
            s.created_at == now_ns,
            s.updated_at == now_ns,
    {
        Self {
            session_id,
            peer_installation_id,
            created_at: now_ns,
            updated_at: now_ns,
            vmac_session_data,
            user_address,
        }
    }
}

/// The local account row, read at every client start; `serialized_key` is
/// opaque identity key material.
#[derive(Debug, PartialEq)]
pub struct StoredAccount {
    pub id: i32,
    pub created_at: i64,
    pub serialized_key: Vec<u8>,
}

pub struct StoredAccountV {
    pub id: i32,
    pub created_at: i64,
    pub serialized_key: Seq<u8>,
}

impl View for StoredAccount {
    type V = StoredAccountV;

    open spec fn view(&self) -> StoredAccountV {
        StoredAccountV {
            id: self.id,
            created_at: self.created_at,
            serialized_key: self.serialized_key@,
        }
    }
}

impl Clone for StoredAccount {
    fn clone(&self) -> (res: Self)
        ensures
            res@ == self@,
    {
        StoredAccount {
            id: self.id,
            created_at: self.created_at,
            serialized_key: clone_bytes(&self.serialized_key),
        }
    }
}

/// An account row being handed to the store; the `id` is store-assigned.
#[derive(Debug, PartialEq)]
pub struct NewStoredAccount {
    pub created_at: i64,
    pub serialized_key: Vec<u8>,
}

impl NewStoredAccount {
    /// Assemble an account row from already-serialized key material.
    pub fn new(serialized_key: Vec<u8>, now_ns: i64) -> (a: Self)
        ensures
            a.created_at == now_ns,
            a.serialized_key@ == serialized_key@,
    {
        Self { created_at: now_ns, serialized_key }
    }
}

/// One device of a user: the peer installation's serialized contact bundle,
/// immutable after first sight except for expiry.
#[derive(Debug, PartialEq)]
pub struct StoredInstallation {
    pub installation_id: String,
    pub user_address: String,
    pub first_seen_ns: i64,
    pub contact: Vec<u8>,
    pub expires_at_ns: Option<i64>,
}

pub struct StoredInstallationV {
    pub installation_id: Seq<char>,
    pub user_address: Seq<char>,
    pub first_seen_ns: i64,
    pub contact: Seq<u8>,
    pub expires_at_ns: Option<i64>,
}

impl View for StoredInstallation {
    type V = StoredInstallationV;

    open spec fn view(&self) -> StoredInstallationV {
        StoredInstallationV {
            installation_id: self.installation_id@,
            user_address: self.user_address@,
            first_seen_ns: self.first_seen_ns,
            contact: self.contact@,
            expires_at_ns: self.expires_at_ns,
        }
    }
}

impl Clone for StoredInstallation {
    fn clone(&self) -> (res: Self)
        ensures
            res@ == self@,
    {
        StoredInstallation {
            installation_id: self.installation_id.clone(),
            user_address: self.user_address.clone(),
            first_seen_ns: self.first_seen_ns,
            contact: clone_bytes(&self.contact),
            expires_at_ns: self.expires_at_ns,
        }
    }
}

impl StoredInstallation {
    /// Build the row for a newly observed contact: the installation
    /// identifier is the digest of the bundle, and the bundle is stored in
    /// its serialized frame.
    pub fn new(contact: &Contact, now_ns: i64) -> (r: Result<Self, ContactError>)
        requires
            contact.bundle@.len() <= u32::MAX,
        ensures
            r matches Ok(inst) && inst.installation_id@ == hex_of(sha256_of(contact.bundle@))
                && inst.user_address@ == contact.wallet_address@ && inst.first_seen_ns == now_ns
                && inst.contact@ == contact_bytes_of(contact.bundle@) && inst.expires_at_ns
                is None,
    {
        let contact_bytes = contact.to_bytes();
        Ok(
            Self {
                installation_id: contact.installation_id(),
                user_address: contact.wallet_address.clone(),
                first_seen_ns: now_ns,
                contact: contact_bytes,
                expires_at_ns: None,
            },
        )
    }

    /// Reconstruct the typed contact from the stored bytes; fails exactly
    /// when the stored bytes are malformed.
    pub fn get_contact(&self) -> (r: Result<Contact, ContactError>)
        ensures
            valid_contact_bytes(self.contact@) ==> (r matches Ok(c) && c.wallet_address@
                == self.user_address@ && c.bundle@ == bundle_of(self.contact@)),
            !valid_contact_bytes(self.contact@) ==> (r matches Err(e) && e
                matches ContactError::BadData(_)),
    {
        Contact::from_bytes(clone_bytes(&self.contact), self.user_address.clone())
    }
}

/// The per-kind polling watermark: `last_run` is the last successfully
/// processed sync point.
#[derive(Debug, PartialEq)]
pub struct RefreshJob {
    pub id: String,
    pub last_run: i64,
}

pub struct RefreshJobV {
    pub id: Seq<char>,
    pub last_run: i64,
}

impl View for RefreshJob {
    type V = RefreshJobV;

    open spec fn view(&self) -> RefreshJobV {
        RefreshJobV { id: self.id@, last_run: self.last_run }
    }
}

impl Clone for RefreshJob {
    fn clone(&self) -> (res: Self)
        ensures
            res@ == self@,
    {
        RefreshJob { id: self.id.clone(), last_run: self.last_run }
    }
}

/// A network-delivered unit: a topic, a protocol timestamp, and an opaque
/// message payload.
#[derive(Debug, PartialEq)]
pub struct Envelope {
    pub timestamp_ns: u64,
    pub content_topic: String,
    pub message: Vec<u8>,
}

/// An inbound invite staged for decryption, keyed by the content digest of
/// `(payload, topic)`; `status` holds an [`InboundInviteStatus`] code.
#[derive(Debug, PartialEq)]
pub struct InboundInvite {
    pub id: String,
    pub sent_at_ns: i64,
    pub payload: Vec<u8>,
    pub topic: String,
    pub status: i16,
}

pub struct InboundInviteV {
    pub id: Seq<char>,
    pub sent_at_ns: i64,
    pub payload: Seq<u8>,
    pub topic: Seq<char>,
    pub status: i16,
}

impl View for InboundInvite {
    type V = InboundInviteV;

    open spec fn view(&self) -> InboundInviteV {
        InboundInviteV {
            id: self.id@,
            sent_at_ns: self.sent_at_ns,
            payload: self.payload@,
            topic: self.topic@,
            status: self.status,
        }
    }
}

impl Clone for InboundInvite {
    fn clone(&self) -> (res: Self)
        ensures
            res@ == self@,
    {
        InboundInvite {
            id: self.id.clone(),
            sent_at_ns: self.sent_at_ns,
            payload: clone_bytes(&self.payload),
            topic: self.topic.clone(),
            status: self.status,
        }
    }
}

impl InboundInvite {
    /// Stage a network envelope as an inbound invite: the key is derived
    /// from the envelope content and the row starts `Pending`. Envelope
    /// timestamps beyond `i64::MAX` cannot be represented in the store.
    pub fn from_envelope(envelope: Envelope) -> (r: Self)
        requires
            envelope.timestamp_ns <= i64::MAX as u64,
        ensures
            r.id@ == inbound_id_of(envelope.message@, envelope.content_topic@),
            r.sent_at_ns == envelope.timestamp_ns as i64,
            r.payload@ == envelope.message@,
            r.topic@ == envelope.content_topic@,
            r.status == InboundInviteStatus::Pending.code_spec(),
    {
        let sent_at_ns: i64 = envelope.timestamp_ns as i64;
        let id = inbound_id(&envelope.message, envelope.content_topic.as_str());
        Self { id, sent_at_ns, payload: envelope.message, topic: envelope.content_topic, status: 0 }
    }
}

/// An inbound message staged for decryption, keyed by the content digest of
/// `(payload, topic)`; `status` holds an [`InboundMessageStatus`] code.
#[derive(Debug, PartialEq)]
pub struct InboundMessage {
    pub id: String,
    pub sent_at_ns: i64,
    pub payload: Vec<u8>,
    pub topic: String,
    pub status: i16,
}

pub struct InboundMessageV {
    pub id: Seq<char>,
    pub sent_at_ns: i64,
    pub payload: Seq<u8>,
    pub topic: Seq<char>,
    pub status: i16,
}

impl View for InboundMessage {
    type V = InboundMessageV;

    open spec fn view(&self) -> InboundMessageV {
        InboundMessageV {
            id: self.id@,
            sent_at_ns: self.sent_at_ns,
            payload: self.payload@,
            topic: self.topic@,
            status: self.status,
        }
    }
}

impl Clone for InboundMessage {
    fn clone(&self) -> (res: Self)
        ensures
            res@ == self@,
    {
        InboundMessage {
            id: self.id.clone(),
            sent_at_ns: self.sent_at_ns,
            payload: clone_bytes(&self.payload),
            topic: self.topic.clone(),
            status: self.status,
        }
    }
}

impl InboundMessage {
    /// Stage a network envelope as an inbound message: the key is derived
    /// from the envelope content and the row starts `Pending`. Envelope
    /// timestamps beyond `i64::MAX` cannot be represented in the store.
    pub fn from_envelope(envelope: Envelope) -> (r: Self)
        requires
            envelope.timestamp_ns <= i64::MAX as u64,
        ensures
            r.id@ == inbound_id_of(envelope.message@, envelope.content_topic@),
            r.sent_at_ns == envelope.timestamp_ns as i64,
            r.payload@ == envelope.message@,
            r.topic@ == envelope.content_topic@,
            r.status == InboundMessageStatus::Pending.code_spec(),
    {
        let sent_at_ns: i64 = envelope.timestamp_ns as i64;
        let id = inbound_id(&envelope.message, envelope.content_topic.as_str());
        Self { id, sent_at_ns, payload: envelope.message, topic: envelope.content_topic, status: 0 }
    }
}

} // verus!
