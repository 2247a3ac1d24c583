use vstd::prelude::*;
use crate::address::bytes_to_address;
use crate::address::address_to_bytes;
use crate::address::denormalized;
use crate::address::is_local_address;
use crate::address::bech32_decoded;
use crate::address::valid_hrp;
use crate::address::left_pad;
use crate::address::normalized;
use crate::address::validate_address;
use crate::bytes::bytes_eq;
use crate::bytes::copy_bytes;
use crate::error::ContractError;
use crate::message::decoding;
use crate::message::is_valid;
use crate::message::message_id;
use crate::message::Message;
use crate::message::MessageView;
use crate::ownable::initialize;
use crate::ownable::opt_view;
use crate::ownable::Ownership;
use crate::ownable::OwnershipView;

verus! {

/// The protocol version that this endpoint builds and accepts.
pub const MAILBOX_VERSION: u8 = 3;

/// The endpoint's configuration.
#[derive(Debug, Clone)]
pub struct Config {
    /// The prefix of this chain's textual addresses.
    pub hrp: String,
    pub local_domain: u32,
    pub default_ism: Option<String>,
    pub default_hook: Option<String>,
}

pub ghost struct ConfigView {
    pub hrp: Seq<char>,
    pub local_domain: u32,
    pub default_ism: Option<Seq<char>>,
    pub default_hook: Option<Seq<char>>,
}

impl View for Config {
    type V = ConfigView;

    open spec fn view(&self) -> ConfigView {
        ConfigView {
            hrp: self.hrp@,
            local_domain: self.local_domain,
            default_ism: opt_view(self.default_ism),
            default_hook: opt_view(self.default_hook),
        }
    }
}

/// A record that the message with this id was delivered, and by whom.
#[derive(Debug, Clone)]
pub struct Delivery {
    pub id: Vec<u8>,
    pub sender: String,
}

/// An amount of one denomination attached to a call.
#[derive(Debug, Clone)]
pub struct Coin {
    pub denom: String,
    pub amount: u128,
}

/// The persisted state of the endpoint.
#[derive(Debug, Clone)]
pub struct Mailbox {
    pub config: Config,
    pub nonce: u32,
    pub latest_dispatched_id: Vec<u8>,
    /// Append-only delivery ledger, in the order of delivery.
    pub deliveries: Vec<Delivery>,
    pub ownership: Ownership,
}

pub ghost struct MailboxView {
    pub config: ConfigView,
    pub nonce: u32,
    pub latest_dispatched_id: Seq<u8>,
    pub deliveries: Seq<(Seq<u8>, Seq<char>)>,
    pub ownership: OwnershipView,
}

pub open spec fn ledger_view(d: Seq<Delivery>) -> Seq<(Seq<u8>, Seq<char>)> {
    d.map_values(|x: Delivery| (x.id@, x.sender@))
}

impl View for Mailbox {
    type V = MailboxView;

    open spec fn view(&self) -> MailboxView {
        MailboxView {
            config: self.config@,
            nonce: self.nonce,
            latest_dispatched_id: self.latest_dispatched_id@,
            deliveries: ledger_view(self.deliveries@),
            ownership: self.ownership@,
        }
    }
}

/// A request to send a message to another domain.
#[derive(Debug, Clone)]
pub struct DispatchMsg {
    pub dest_domain: u32,
    pub recipient_addr: Vec<u8>,
    pub msg_body: Vec<u8>,
    /// A hook to use instead of the default one.
    pub hook: Option<String>,
    pub metadata: Option<Vec<u8>>,
}

/// The outcome of a dispatch: the id, the message, and the call that the
/// hook is to receive once the state change is committed.
#[derive(Debug, Clone)]
pub struct Dispatched {
    pub message_id: Vec<u8>,
    pub message: Message,
    pub hook: String,
    pub hook_metadata: Vec<u8>,
    pub funds: Vec<Coin>,
}

/// The call that the recipient is to receive once a delivery is committed.
#[derive(Debug, Clone)]
pub struct HandleCall {
    pub recipient: String,
    pub origin: u32,
    pub sender: Vec<u8>,
    pub body: Vec<u8>,
}

/// Whether the ledger holds a delivery of `id`.
pub open spec fn delivered(ledger: Seq<(Seq<u8>, Seq<char>)>, id: Seq<u8>) -> bool {
    exists|i: int| 0 <= i < ledger.len() && (#[trigger] ledger[i]).0 == id
}

/// The outcome of an owner-only update of a default address.
pub open spec fn set_default_outcome(s: MailboxView, sender: Seq<char>, addr: Seq<char>) -> Result<
    (),
    ContractError,
> {
    if sender != s.ownership.owner {
        Err(ContractError::Unauthorized)
    } else if !is_local_address(s.config.hrp, addr) {
        Err(ContractError::InvalidAddress)
    } else {
        Ok(())
    }
}

/// The message that `sender` dispatching `msg` builds, or the failure.
pub open spec fn dispatch_outcome(s: MailboxView, sender: Seq<char>, msg: DispatchMsg) -> Result<
    MessageView,
    ContractError,
> {
    if msg.recipient_addr@.len() > 32 {
        Err(ContractError::InvalidAddressLength { len: msg.recipient_addr@.len() as usize })
    } else if msg.hook is Some && !is_local_address(s.config.hrp, msg.hook->0@) {
        Err(ContractError::InvalidAddress)
    } else {
        match normalized(sender) {
            Err(e) => Err(e),
            Ok(w) => Ok(
                MessageView {
                    version: MAILBOX_VERSION,
                    nonce: s.nonce,
                    origin_domain: s.config.local_domain,
                    sender: w,
                    dest_domain: msg.dest_domain,
                    recipient: msg.recipient_addr@,
                    body: msg.msg_body@,
                },
            ),
        }
    }
}

/// The hook that a dispatch of `msg` hands its message to.
pub open spec fn resolved_hook(s: MailboxView, msg: DispatchMsg) -> Seq<char> {
    match msg.hook {
        Some(h) => h@,
        None => s.config.default_hook->0,
    }
}

/// The checks of an inbound delivery, in order: the decoded message and the
/// local address of its recipient, or the failure.
pub open spec fn process_outcome(s: MailboxView, raw: Seq<u8>) -> Result<
    (MessageView, Seq<char>),
    ContractError,
> {
    match decoding(raw) {
        None => Err(ContractError::MalformedMessage),
        Some(m) => match denormalized(s.config.hrp, m.recipient) {
            Err(e) => Err(e),
            Ok(rcpt) => if m.version != MAILBOX_VERSION {
                Err(ContractError::InvalidMessageVersion { version: m.version })
            } else if m.dest_domain != s.config.local_domain {
                Err(ContractError::InvalidDestinationDomain { domain: m.dest_domain })
            } else if delivered(s.deliveries, message_id(m)) {
                Err(ContractError::AlreadyDeliveredMessage)
            } else {
                Ok((m, rcpt))
            },
        },
    }
}

impl Mailbox {
    /// A fresh endpoint for `local_domain`, owned by `owner`, with no
    /// defaults set, nonce zero and an empty ledger.
    pub fn new(hrp: &String, local_domain: u32, owner: &String) -> (r: Mailbox)
        ensures
            r@ == (MailboxView {
                config: ConfigView {
                    hrp: hrp@,
                    local_domain,
                    default_ism: None,
                    default_hook: None,
                },
                nonce: 0,
                latest_dispatched_id: Seq::empty(),
                deliveries: Seq::empty(),
                ownership: OwnershipView { owner: owner@, pending_owner: None },
            }),
    {
        let r = Mailbox {
            config: Config {
                hrp: hrp.clone(),
                local_domain,
                default_ism: None,
                default_hook: None,
            },
            nonce: 0,
            latest_dispatched_id: Vec::new(),
            deliveries: Vec::new(),
            ownership: initialize(owner),
        };
        assert(ledger_view(r.deliveries@) =~= Seq::empty());
        r
    }

    /// Whether a delivery of `id` is on record.
    pub fn is_delivered(&self, id: &Vec<u8>) -> (r: bool)
        ensures
            r == delivered(self@.deliveries, id@),
    {
        let mut i: usize = 0;
        while i < self.deliveries.len()
            invariant
                i <= self.deliveries@.len(),
                forall|k: int| 0 <= k < i ==> (#[trigger] self.deliveries@[k]).id@ != id@,
            decreases self.deliveries.len() - i,
        {
            if bytes_eq(&self.deliveries[i].id, id) {
                assert(self@.deliveries[i as int].0 == id@);
                return true;
            }
            i = i + 1;
        }
        assert forall|k: int| 0 <= k < self@.deliveries.len() implies (
        #[trigger] self@.deliveries[k]).0 != id@ by {
            assert(self.deliveries@[k].id@ != id@);
        }
        false
    }
}

/// The security module for a recipient: the one it names, else the default.
pub fn resolve_ism(config: &Config, recipient_ism: Option<String>) -> (r: String)
    requires
        recipient_ism is Some || config.default_ism is Some,
    ensures
        r@ == (match recipient_ism {
            Some(i) => i@,
            None => config@.default_ism->0,
        }),
{
    match recipient_ism {
        Some(i) => i,
        None => config.default_ism.as_ref().unwrap().clone(),
    }
}

/// The owner sets the default security module.
pub fn set_default_ism(mb: &mut Mailbox, sender: &String, new_default_ism: &String) -> (r: Result<
    (),
    ContractError,
>)
    ensures
        r == set_default_outcome(old(mb)@, sender@, new_default_ism@),
        final(mb)@ == (if r is Ok {
            MailboxView {
                config: ConfigView { default_ism: Some(new_default_ism@), ..old(mb)@.config },
                ..old(mb)@
            }
        } else {
            old(mb)@
        }),
{
    if *sender != mb.ownership.owner {
        return Err(ContractError::Unauthorized);
    }
    validate_address(&mb.config.hrp, new_default_ism)?;
    mb.config.default_ism = Some(new_default_ism.clone());
    Ok(())
}

/// The owner sets the default hook.
pub fn set_default_hook(mb: &mut Mailbox, sender: &String, new_default_hook: &String) -> (r: Result<
    (),
    ContractError,
>)
    ensures
        r == set_default_outcome(old(mb)@, sender@, new_default_hook@),
        final(mb)@ == (if r is Ok {
            MailboxView {
                config: ConfigView { default_hook: Some(new_default_hook@), ..old(mb)@.config },
                ..old(mb)@
            }
        } else {
            old(mb)@
        }),
{
    if *sender != mb.ownership.owner {
        return Err(ContractError::Unauthorized);
    }
    validate_address(&mb.config.hrp, new_default_hook)?;
    mb.config.default_hook = Some(new_default_hook.clone());
    Ok(())
}

/// Sends a message to another domain: builds it with the current nonce,
/// advances the nonce, records the id as the latest dispatched one, and
/// hands the message to the hook named in `msg` or to the default hook.
pub fn dispatch(mb: &mut Mailbox, sender: &String, funds: Vec<Coin>, msg: DispatchMsg) -> (r:
    Result<Dispatched, ContractError>)
    requires
        msg.hook is Some || old(mb).config.default_hook is Some,
        old(mb).nonce < u32::MAX,
    ensures
        match r {
            Ok(d) => {
                &&& dispatch_outcome(old(mb)@, sender@, msg) == Ok::<MessageView, ContractError>(
                    d.message@,
                )
                &&& (msg.recipient_addr@.len() == 32 ==> is_valid(d.message@))
                &&& d.message_id@ == message_id(d.message@)
                &&& d.hook@ == resolved_hook(old(mb)@, msg)
                &&& d.hook_metadata@ == (match msg.metadata {
                    Some(m) => m@,
                    None => Seq::<u8>::empty(),
                })
                &&& d.funds == funds
                &&& final(mb)@ == (MailboxView {
                    nonce: (old(mb).nonce + 1) as u32,
                    latest_dispatched_id: d.message_id@,
                    ..old(mb)@
                })
            },
            Err(e) => {
                &&& dispatch_outcome(old(mb)@, sender@, msg) == Err::<MessageView, ContractError>(e)
                &&& final(mb)@ == old(mb)@
            },
        },
{
    let len = msg.recipient_addr.len();
    if len > 32 {
        return Err(ContractError::InvalidAddressLength { len });
    }
    let hook = match &msg.hook {
        Some(h) => {
            validate_address(&mb.config.hrp, h)?;
            h.clone()
        },
        None => mb.config.default_hook.as_ref().unwrap().clone(),
    };
    let sender_bytes = address_to_bytes(sender)?;
    let recipient = copy_bytes(&msg.recipient_addr);
    let hook_metadata = match &msg.metadata {
        Some(m) => copy_bytes(m),
        None => Vec::new(),
    };
    let message = Message {
        version: MAILBOX_VERSION,
        nonce: mb.nonce,
        origin_domain: mb.config.local_domain,
        sender: sender_bytes,
        dest_domain: msg.dest_domain,
        recipient,
        body: copy_bytes(&msg.msg_body),
    };
    let message_id = message.id();
    mb.nonce = mb.nonce + 1;
    mb.latest_dispatched_id = copy_bytes(&message_id);
    Ok(Dispatched { message_id, message, hook, hook_metadata, funds })
}

/// The checks of an inbound delivery, without recording anything: the
/// decoded message and its recipient's local address, or the failure that
/// [`process`] would report.
pub fn check_delivery(mb: &Mailbox, message: &Vec<u8>) -> (r: Result<(Message, String), ContractError>)
    ensures
        match process_outcome(mb@, message@) {
            Ok((m, rcpt)) => r is Ok && (r->Ok_0).0@ == m && (r->Ok_0).1@ == rcpt,
            Err(e) => r == Err::<(Message, String), ContractError>(e),
        },
{
    let decoded = Message::decode(message)?;
    let recipient = bytes_to_address(&mb.config.hrp, &decoded.recipient)?;
    if decoded.version != MAILBOX_VERSION {
        return Err(ContractError::InvalidMessageVersion { version: decoded.version });
    }
    if decoded.dest_domain != mb.config.local_domain {
        return Err(ContractError::InvalidDestinationDomain { domain: decoded.dest_domain });
    }
    let id = decoded.id();
    if mb.is_delivered(&id) {
        return Err(ContractError::AlreadyDeliveredMessage);
    }
    Ok((decoded, recipient))
}

/// Accepts an inbound message: decodes it, checks its recipient, version,
/// destination and that it was not delivered before, records the delivery
/// by `sender`, and then consults `verified`, the answer of the security
/// module that [`resolve_ism`] names for the message and its metadata.
/// The record stays even when that answer is no, so a message id is
/// consumed by its first accepted attempt.
pub fn process(mb: &mut Mailbox, sender: &String, message: &Vec<u8>, verified: bool) -> (r: Result<
    HandleCall,
    ContractError,
>)
    ensures
        match process_outcome(old(mb)@, message@) {
            Err(e) => r == Err::<HandleCall, ContractError>(e) && final(mb)@ == old(mb)@,
            Ok((m, rcpt)) => {
                &&& final(mb)@ == (MailboxView {
                    deliveries: old(mb)@.deliveries.push((message_id(m), sender@)),
                    ..old(mb)@
                })
                &&& match r {
                    Ok(h) => verified && h.recipient@ == rcpt && h.origin == m.origin_domain
                        && h.sender@ == m.sender && h.body@ == m.body,
                    Err(e) => !verified && e == ContractError::VerificationFailed,
                }
            },
        },
{
    let (decoded, recipient) = check_delivery(mb, message)?;
    let id = decoded.id();
    let ghost before = mb.deliveries@;
    mb.deliveries.push(Delivery { id, sender: sender.clone() });
    assert(ledger_view(mb.deliveries@) =~= ledger_view(before).push((message_id(decoded@), sender@)));
    if !verified {
        return Err(ContractError::VerificationFailed);
    }
    Ok(HandleCall {
        recipient,
        origin: decoded.origin_domain,
        sender: decoded.sender,
        body: decoded.body,
    })
}

/// Once an inbound message has been accepted, whatever the security module
/// answered, submitting the same bytes again fails as already delivered.
pub proof fn lemma_redelivery_rejected(s: MailboxView, raw: Seq<u8>, relayer: Seq<char>)
    requires
        process_outcome(s, raw) is Ok,
    ensures
        process_outcome(
            MailboxView {
                deliveries: s.deliveries.push((message_id((process_outcome(s, raw)->Ok_0).0), relayer)),
                ..s
            },
            raw,
        ) == Err::<(MessageView, Seq<char>), ContractError>(ContractError::AlreadyDeliveredMessage),
{
    let m = (process_outcome(s, raw)->Ok_0).0;
    let t = MailboxView { deliveries: s.deliveries.push((message_id(m), relayer)), ..s };
    assert(t.deliveries[s.deliveries.len() as int].0 == message_id(m));
    assert(delivered(t.deliveries, message_id(m)));
}

/// The ledger only grows: a delivery on record stays on record after any
/// inbound call.
pub proof fn lemma_ledger_append_only(
    s: MailboxView,
    t: MailboxView,
    id: Seq<u8>,
    entry: (Seq<u8>, Seq<char>),
)
    requires
        t.deliveries == s.deliveries.push(entry),
        delivered(s.deliveries, id),
    ensures
        delivered(t.deliveries, id),
{
    let i = choose|i: int| 0 <= i < s.deliveries.len() && (#[trigger] s.deliveries[i]).0 == id;
    assert(t.deliveries[i] == s.deliveries[i]);
}

/// A dispatch succeeds whenever the recipient fits the wire width, an
/// explicit hook is a local address, and the sender decodes to at most the
/// wire width; the message then carries the current nonce, the local domain
/// as origin, the padded sender, and the destination, recipient and body of
/// the request unchanged.
pub proof fn lemma_dispatch_succeeds(s: MailboxView, sender: Seq<char>, msg: DispatchMsg)
    requires
        msg.recipient_addr@.len() <= 32,
        msg.hook is Some ==> is_local_address(s.config.hrp, msg.hook->0@),
        bech32_decoded(sender) is Some,
        (bech32_decoded(sender)->0).1.len() <= 32,
    ensures
        dispatch_outcome(s, sender, msg) == Ok::<MessageView, ContractError>(
            MessageView {
                version: MAILBOX_VERSION,
                nonce: s.nonce,
                origin_domain: s.config.local_domain,
                sender: left_pad((bech32_decoded(sender)->0).1),
                dest_domain: msg.dest_domain,
                recipient: msg.recipient_addr@,
                body: msg.msg_body@,
            },
        ),
{
}

/// An inbound message is accepted, up to the security module's answer,
/// whenever its bytes hold a header, the local address prefix is valid, it
/// was built for this protocol version and this domain, and its id is not on
/// record.
pub proof fn lemma_process_accepts(s: MailboxView, raw: Seq<u8>)
    requires
        raw.len() >= 77,
        valid_hrp(s.config.hrp),
        raw[0] == MAILBOX_VERSION,
        (decoding(raw)->0).dest_domain == s.config.local_domain,
        !delivered(s.deliveries, message_id(decoding(raw)->0)),
    ensures
        process_outcome(s, raw) is Ok,
        (process_outcome(s, raw)->Ok_0).0 == decoding(raw)->0,
{
}

} // verus!
