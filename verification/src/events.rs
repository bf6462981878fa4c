use vstd::prelude::*;
use vstd::utf8::encode_utf8;
use crate::abi::{decode_address_reply, decode_uint256_reply};
use crate::amounts::{u256_from_be32, Uint256};
use crate::encode::{pad32, zeros};
use crate::errors::VaultError;
use crate::hashing::{keccak256, keccak_of};
use crate::ids::{Address, Bytes32};

verus! {

/// One raw log entry from a receipt: the emitting contract, the indexed
/// topics (the first is the event's signature hash) and the data words.
pub struct RawLog {
    pub emitter: Address,
    pub topics: Vec<Bytes32>,
    pub data: Vec<u8>,
}

/// The confirmed outcome of one submitted transaction: its hash, the
/// receipt's status flag, and the raw logs it emitted.
pub struct TransactionOutcome {
    pub hash: Bytes32,
    pub success: bool,
    pub logs: Vec<RawLog>,
}

/// A log decoded against one of the two event shapes the vault emits.
pub enum DecodedEvent {
    DepositReceived { payer: Address, order_id: Bytes32, amount: Uint256 },
    WithdrawCompleted { owner: Address, amount: Uint256 },
}

/// Which event shape a settlement is expected to emit.
#[derive(Clone, Copy, PartialEq, Eq, Structural)]
pub enum EventKind {
    Deposit,
    Withdraw,
}

pub enum EventData {
    Deposit { payer: Seq<u8>, order_id: Seq<u8>, amount: Uint256 },
    Withdraw { owner: Seq<u8>, amount: Uint256 },
}

impl View for DecodedEvent {
    type V = EventData;

    open spec fn view(&self) -> EventData {
        match self {
            DecodedEvent::DepositReceived { payer, order_id, amount } => EventData::Deposit {
                payer: payer@,
                order_id: order_id@,
                amount: *amount,
            },
            DecodedEvent::WithdrawCompleted { owner, amount } => EventData::Withdraw {
                owner: owner@,
                amount: *amount,
            },
        }
    }
}

pub open spec fn deposit_event_topic() -> Seq<u8> {
    keccak_of(encode_utf8("DepositReceived(address,bytes32,uint256)"@))
}

pub open spec fn withdraw_event_topic() -> Seq<u8> {
    keccak_of(encode_utf8("WithdrawCompleted(address,uint256)"@))
}

pub open spec fn expected_topic(kind: EventKind) -> Seq<u8> {
    match kind {
        EventKind::Deposit => deposit_event_topic(),
        EventKind::Withdraw => withdraw_event_topic(),
    }
}

/// Whether the log announces the expected event at all: its first topic is
/// the event's signature hash.
pub open spec fn topic_matches(l: RawLog, kind: EventKind) -> bool {
    l.topics@.len() > 0 && l.topics@[0]@ == expected_topic(kind)
}

/// Whether a log that announces the expected event also has the expected
/// shape: the right number of topics, an address-shaped indexed word, and
/// one 32-byte data word.
pub open spec fn log_well_formed(l: RawLog, kind: EventKind) -> bool {
    match kind {
        EventKind::Deposit => l.topics@.len() == 3 && l.topics@[1]@.subrange(0, 12) == zeros(12)
            && l.data@.len() == 32,
        EventKind::Withdraw => l.topics@.len() == 2 && l.topics@[1]@.subrange(0, 12) == zeros(12)
            && l.data@.len() == 32,
    }
}

/// What one log decodes to: the event's fields for a matching, well-formed
/// log, and nothing for a log of some other event.
pub open spec fn decode_log_data(l: RawLog, kind: EventKind) -> Option<EventData> {
    if topic_matches(l, kind) && log_well_formed(l, kind) {
        match kind {
            EventKind::Deposit => Some(
                EventData::Deposit {
                    payer: l.topics@[1]@.subrange(12, 32),
                    order_id: l.topics@[2]@,
                    amount: u256_from_be32(l.data@),
                },
            ),
            EventKind::Withdraw => Some(
                EventData::Withdraw {
                    owner: l.topics@[1]@.subrange(12, 32),
                    amount: u256_from_be32(l.data@),
                },
            ),
        }
    } else {
        None
    }
}

/// A matching log whose shape is malformed: reported as a degraded decode,
/// never as a failure of the settlement itself.
pub open spec fn log_degraded(l: RawLog, kind: EventKind) -> bool {
    topic_matches(l, kind) && !log_well_formed(l, kind)
}

/// The events decoded from a run of logs, in log order; non-matching and
/// malformed logs contribute nothing.
pub open spec fn decoded_events_of(logs: Seq<RawLog>, kind: EventKind) -> Seq<EventData>
    decreases logs.len(),
{
    if logs.len() == 0 {
        Seq::empty()
    } else {
        decoded_events_of(logs.drop_last(), kind) + match decode_log_data(logs.last(), kind) {
            Some(v) => seq![v],
            None => Seq::empty(),
        }
    }
}

/// How many logs matched the expected topic but were malformed.
pub open spec fn degraded_count_of(logs: Seq<RawLog>, kind: EventKind) -> nat
    decreases logs.len(),
{
    if logs.len() == 0 {
        0nat
    } else {
        degraded_count_of(logs.drop_last(), kind) + if log_degraded(logs.last(), kind) {
            1nat
        } else {
            0nat
        }
    }
}

/// Decodes one raw log against the expected event shape.
pub fn decode_log(l: &RawLog, kind: EventKind) -> (r: Option<DecodedEvent>)
    ensures
        r matches Some(e) ==> decode_log_data(*l, kind) == Some(e@),
        r is None ==> decode_log_data(*l, kind) is None,
{
    let topic_hash = match kind {
        EventKind::Deposit => keccak256("DepositReceived(address,bytes32,uint256)".as_bytes()),
        EventKind::Withdraw => keccak256("WithdrawCompleted(address,uint256)".as_bytes()),
    };
    if l.topics.len() == 0 || !l.topics[0].eq_bytes(topic_hash.as_slice()) {
        return None;
    }
    match kind {
        EventKind::Deposit => {
            if l.topics.len() != 3 || l.data.len() != 32 {
                return None;
            }
            let payer = match decode_address_reply(l.topics[1].bytes.as_slice()) {
                Some(a) => a,
                None => {
                    return None;
                },
            };
            let amount = match decode_uint256_reply(l.data.as_slice()) {
                Some(w) => w,
                None => {
                    return None;
                },
            };
            proof {
                assert(pad32(payer@).subrange(12, 32) =~= payer@);
            }
            Some(DecodedEvent::DepositReceived { payer, order_id: l.topics[2], amount })
        },
        EventKind::Withdraw => {
            if l.topics.len() != 2 || l.data.len() != 32 {
                return None;
            }
            let owner = match decode_address_reply(l.topics[1].bytes.as_slice()) {
                Some(a) => a,
                None => {
                    return None;
                },
            };
            let amount = match decode_uint256_reply(l.data.as_slice()) {
                Some(w) => w,
                None => {
                    return None;
                },
            };
            proof {
                assert(pad32(owner@).subrange(12, 32) =~= owner@);
            }
            Some(DecodedEvent::WithdrawCompleted { owner, amount })
        },
    }
}

/// A settled transaction: its hash, the events of the expected kind decoded
/// from its logs, and how many matching logs were malformed (a display-layer
/// degradation, not a failure).
pub struct Settlement {
    pub hash: Bytes32,
    pub events: Vec<DecodedEvent>,
    pub degraded: usize,
}

/// Decodes every log of the outcome against the expected event shape, in
/// order, and counts the matching logs that were malformed.
pub fn decode_events(logs: &Vec<RawLog>, kind: EventKind) -> (r: (Vec<DecodedEvent>, usize))
    ensures
        r.0@.map_values(|e: DecodedEvent| e@) == decoded_events_of(logs@, kind),
        r.1 == degraded_count_of(logs@, kind),
{
    let mut out: Vec<DecodedEvent> = Vec::new();
    let mut degraded: usize = 0;
    let mut i: usize = 0;
    while i < logs.len()
        invariant
            i <= logs@.len(),
            out@.map_values(|e: DecodedEvent| e@) == decoded_events_of(
                logs@.subrange(0, i as int),
                kind,
            ),
            degraded == degraded_count_of(logs@.subrange(0, i as int), kind),
            degraded <= i,
        decreases logs@.len() - i,
    {
        let ghost prefix = logs@.subrange(0, i as int);
        let ghost next = logs@.subrange(0, i + 1);
        proof {
            assert(next.drop_last() =~= prefix);
            assert(next.last() == logs@[i as int]);
        }
        match decode_log(&logs[i], kind) {
            Some(e) => {
                out.push(e);
                proof {
                    assert(out@.map_values(|e: DecodedEvent| e@) =~= decoded_events_of(next, kind));
                }
            },
            None => {
                proof {
                    assert(decoded_events_of(next, kind) =~= decoded_events_of(prefix, kind));
                }
            },
        }
        if log_is_degraded(&logs[i], kind) {
            degraded += 1;
        }
        i += 1;
    }
    proof {
        assert(logs@.subrange(0, logs@.len() as int) =~= logs@);
    }
    (out, degraded)
}

/// Interprets a receipt: an included-but-reverted transaction is terminal
/// and fails with `TransactionReverted`, whatever its logs hold; a
/// successful one yields the decoded events of the expected kind.
pub fn interpret_receipt(outcome: &TransactionOutcome, kind: EventKind) -> (r: Result<
    Settlement,
    VaultError,
>)
    ensures
        !outcome.success ==> (r matches Err(e) && e matches VaultError::TransactionReverted {
            hash,
        } && hash == outcome.hash),
        outcome.success ==> (r matches Ok(s) && s.hash == outcome.hash && s.events@.map_values(
            |e: DecodedEvent| e@,
        ) == decoded_events_of(outcome.logs@, kind) && s.degraded == degraded_count_of(
            outcome.logs@,
            kind,
        )),
{
    if !outcome.success {
        return Err(VaultError::TransactionReverted { hash: outcome.hash });
    }
    let (events, degraded) = decode_events(&outcome.logs, kind);
    Ok(Settlement { hash: outcome.hash, events, degraded })
}

/// Whether one raw log is a degraded decode for the expected event.
fn log_is_degraded(l: &RawLog, kind: EventKind) -> (r: bool)
    ensures
        r == log_degraded(*l, kind),
{
    let topic_hash = match kind {
        EventKind::Deposit => keccak256("DepositReceived(address,bytes32,uint256)".as_bytes()),
        EventKind::Withdraw => keccak256("WithdrawCompleted(address,uint256)".as_bytes()),
    };
    if l.topics.len() == 0 || !l.topics[0].eq_bytes(topic_hash.as_slice()) {
        return false;
    }
    let shape_ok: bool = match kind {
        EventKind::Deposit => {
            if l.topics.len() == 3 && l.data.len() == 32 {
                decode_address_reply(l.topics[1].bytes.as_slice()).is_some()
            } else {
                false
            }
        },
        EventKind::Withdraw => {
            if l.topics.len() == 2 && l.data.len() == 32 {
                decode_address_reply(l.topics[1].bytes.as_slice()).is_some()
            } else {
                false
            }
        },
    };
    !shape_ok
}

} // verus!
