//! Decision V6 identities as traderv3 derives them: the Sleeve id, a decision's IntentIds, and
//! the command ids and provider client ids built from them.
use crate::decision_v4::DecisionContextV4;
use crate::decision_v6::{DecisionContextV6, DeploymentModeV6, OwnerTriggerV6, TriggerV6, mode_name};
use crate::digest::{be_u16, be_u32, be_u64, extend, sha256, sha256_digest, u16_be_bytes, u32_be_bytes, u64_be_bytes};
use crate::result_v6::{timer_generation_for, timer_generation_of};
use crate::command_v6::spec_valid_provider_client_id;
use crate::text::{
    byte_len, byte_length, is_identifier_byte, is_lower_hex_char, lemma_ascii_identifier,
    lemma_hex_digits, lemma_hex_is_ascii,
    parse_hex_digest, push_hex, spec_hex, spec_parse_hex_digest, spec_valid_identifier,
    string_bytes, utf8,
};
use vstd::prelude::*;
use vstd::string::StringExecFns;
use vstd::utf8::is_ascii_chars;

verus! {

/// `trader-v3/sleeve-id/v1` and a NUL byte.
pub const SLEEVE_ID_DOMAIN: [u8; 23] = [
    116, 114, 97, 100, 101, 114, 45, 118, 51, 47, 115, 108, 101, 101, 118, 101, 45, 105, 100, 47,
    118, 49, 0,
];

/// `trader-v3/decision-id/v1` and a NUL byte.
pub const DECISION_ID_DOMAIN: [u8; 25] = [
    116, 114, 97, 100, 101, 114, 45, 118, 51, 47, 100, 101, 99, 105, 115, 105, 111, 110, 45, 105,
    100, 47, 118, 49, 0,
];

/// `trader-v3/intent-id/v1` and a NUL byte.
pub const INTENT_ID_DOMAIN: [u8; 23] = [
    116, 114, 97, 100, 101, 114, 45, 118, 51, 47, 105, 110, 116, 101, 110, 116, 45, 105, 100, 47,
    118, 49, 0,
];

/// A component of an identity message: its byte length in 2 big-endian bytes, then its bytes.
pub open spec fn short_framed(s: Seq<char>) -> Seq<u8> {
    be_u16(byte_len(s) as u16) + utf8(s)
}

pub open spec fn sleeve_identity_message(
    strategy_id: Seq<char>,
    binding_id: Seq<char>,
    venue_id: Seq<char>,
    opportunity_id: Seq<char>,
) -> Seq<u8> {
    SLEEVE_ID_DOMAIN@ + short_framed(strategy_id) + short_framed(binding_id) + short_framed(
        venue_id,
    ) + short_framed(opportunity_id)
}

/// The Sleeve id: the lowercase hex SHA-256 of the domain and the four components.
pub open spec fn spec_sleeve_identity_v6(
    strategy_id: Seq<char>,
    binding_id: Seq<char>,
    venue_id: Seq<char>,
    opportunity_id: Seq<char>,
) -> Seq<char> {
    spec_hex(sha256(sleeve_identity_message(strategy_id, binding_id, venue_id, opportunity_id)))
}

fn extend_short_framed(out: &mut Vec<u8>, s: &str)
    requires
        byte_len(s@) <= 0xffff,
    ensures
        final(out)@ == old(out)@ + short_framed(s@),
{
    let ghost start = out@;
    let bytes = s.as_bytes();
    let length = bytes.len() as u16;
    extend(out, &u16_be_bytes(length));
    extend(out, bytes);
    assert(out@ =~= start + short_framed(s@));
}

/// The Sleeve id of a Strategy binding on an opportunity. Each component is at most 65535
/// bytes (a V6 identity is far shorter).
pub fn derive_sleeve_identity_v6(
    strategy_id: &str,
    binding_id: &str,
    venue_id: &str,
    opportunity_id: &str,
) -> (r: String)
    requires
        byte_len(strategy_id@) <= 0xffff,
        byte_len(binding_id@) <= 0xffff,
        byte_len(venue_id@) <= 0xffff,
        byte_len(opportunity_id@) <= 0xffff,
    ensures
        r@ == spec_sleeve_identity_v6(strategy_id@, binding_id@, venue_id@, opportunity_id@),
{
    let mut message: Vec<u8> = Vec::new();
    extend(&mut message, &SLEEVE_ID_DOMAIN);
    extend_short_framed(&mut message, strategy_id);
    extend_short_framed(&mut message, binding_id);
    extend_short_framed(&mut message, venue_id);
    extend_short_framed(&mut message, opportunity_id);
    assert(message@ =~= sleeve_identity_message(
        strategy_id@,
        binding_id@,
        venue_id@,
        opportunity_id@,
    ));
    let digest = sha256_digest(message.as_slice());
    crate::text::hex_digest(&digest)
}

/// The Sleeve id under Decision V5: the same derivation as V6.
pub fn derive_sleeve_identity_v5(
    strategy_id: &str,
    binding_id: &str,
    venue_id: &str,
    opportunity_id: &str,
) -> (r: String)
    requires
        byte_len(strategy_id@) <= 0xffff,
        byte_len(binding_id@) <= 0xffff,
        byte_len(venue_id@) <= 0xffff,
        byte_len(opportunity_id@) <= 0xffff,
    ensures
        r@ == spec_sleeve_identity_v6(strategy_id@, binding_id@, venue_id@, opportunity_id@),
{
    derive_sleeve_identity_v6(strategy_id, binding_id, venue_id, opportunity_id)
}

/// `DecisionId = sha256(DECISION_DOMAIN, Sleeve id bytes, incarnation, delivery id)`.
pub open spec fn decision_id_message(sleeve: Seq<u8>, incarnation: u64, delivery_id: Seq<char>) -> Seq<
    u8,
> {
    DECISION_ID_DOMAIN@ + sleeve + be_u64(incarnation) + short_framed(delivery_id)
}

/// `IntentId = sha256(INTENT_DOMAIN, DecisionId, ordinal)`.
pub open spec fn intent_id_message(decision_id: Seq<u8>, ordinal: u32) -> Seq<u8> {
    INTENT_ID_DOMAIN@ + decision_id + be_u32(ordinal)
}

/// The IntentId of a decision's command at `ordinal`; none when the Sleeve id is not a 64-digit
/// lowercase hex digest or the delivery id is longer than 65535 bytes.
pub open spec fn spec_intent_id_v6(
    sleeve_id: Seq<char>,
    incarnation: u64,
    delivery_id: Seq<char>,
    ordinal: u32,
) -> Option<Seq<u8>> {
    match spec_parse_hex_digest(sleeve_id) {
        Some(sleeve) => if byte_len(delivery_id) <= 0xffff {
            Some(
                sha256(
                    intent_id_message(
                        sha256(decision_id_message(sleeve, incarnation, delivery_id)),
                        ordinal,
                    ),
                ),
            )
        } else {
            None
        },
        None => None,
    }
}

/// The IntentId of a decision's command at `ordinal`, as traderv3 derives it:
/// `sha256(INTENT_DOMAIN, DecisionId, ordinal)` with `DecisionId = sha256(DECISION_DOMAIN,
/// Sleeve id, incarnation, delivery id)`. The ordinal is the command's index in the result,
/// timer and stop commands included. `None` when the Sleeve id is not a 64-hex digest.
pub fn intent_id_v6(sleeve_id: &str, incarnation: u64, delivery_id: &str, ordinal: u32) -> (r:
    Option<[u8; 32]>)
    ensures
        match spec_intent_id_v6(sleeve_id@, incarnation, delivery_id@, ordinal) {
            Some(id) => r is Some && r->0@ == id,
            None => r is None,
        },
{
    let sleeve = match parse_hex_digest(sleeve_id) {
        Some(bytes) => bytes,
        None => return None,
    };
    if byte_length(delivery_id) > 0xffff {
        return None;
    }
    let mut decision: Vec<u8> = Vec::new();
    extend(&mut decision, &DECISION_ID_DOMAIN);
    extend(&mut decision, &sleeve);
    extend(&mut decision, &u64_be_bytes(incarnation));
    extend_short_framed(&mut decision, delivery_id);
    assert(decision@ =~= decision_id_message(sleeve@, incarnation, delivery_id@));
    let decision_id = sha256_digest(decision.as_slice());
    let mut intent: Vec<u8> = Vec::new();
    extend(&mut intent, &INTENT_ID_DOMAIN);
    extend(&mut intent, &decision_id);
    extend(&mut intent, &u32_be_bytes(ordinal));
    assert(intent@ =~= intent_id_message(decision_id@, ordinal));
    Some(sha256_digest(intent.as_slice()))
}

/// An ASCII identifier prefix followed by hex digits is made of ASCII identifier characters.
proof fn lemma_prefixed_hex(prefix: Seq<char>, b: Seq<u8>)
    requires
        is_ascii_chars(prefix),
        forall|i: int| 0 <= i < prefix.len() ==> is_identifier_byte(#[trigger] prefix[i] as u8),
    ensures
        is_ascii_chars(prefix + spec_hex(b)),
        forall|i: int|
            0 <= i < (prefix + spec_hex(b)).len() ==> is_identifier_byte(
                #[trigger] (prefix + spec_hex(b))[i] as u8,
            ),
{
    let s = prefix + spec_hex(b);
    lemma_hex_is_ascii(b);
    assert forall|i: int| 0 <= i < s.len() implies '\0' <= #[trigger] s[i] <= '\u{7f}'
        && is_identifier_byte(s[i] as u8) by {
        if i >= prefix.len() {
            assert(s[i] == spec_hex(b)[i - prefix.len()]);
        }
    }
}

/// `command.` and the first 32 hex digits (16 bytes) of the IntentId.
pub open spec fn spec_command_id_v6(
    sleeve_id: Seq<char>,
    incarnation: u64,
    delivery_id: Seq<char>,
    ordinal: u32,
) -> Option<Seq<char>> {
    match spec_intent_id_v6(sleeve_id, incarnation, delivery_id, ordinal) {
        Some(intent) => Some(
            seq!['c', 'o', 'm', 'm', 'a', 'n', 'd', '.'] + spec_hex(intent.subrange(0, 16)),
        ),
        None => None,
    }
}

/// `command.<first 32 hex digits of the command's IntentId>`: deterministic, and unique across
/// Sleeves, incarnations and deliveries because the IntentId binds all three.
pub fn command_id_v6(sleeve_id: &str, incarnation: u64, delivery_id: &str, ordinal: u32) -> (r:
    Option<String>)
    ensures
        match spec_command_id_v6(sleeve_id@, incarnation, delivery_id@, ordinal) {
            Some(id) => r is Some && r->0@ == id,
            None => r is None,
        },
        r is Some ==> spec_valid_identifier(r->0@),
        r is Some ==> r->0@.len() == 40 && r->0@.subrange(0, 8) == seq![
            'c',
            'o',
            'm',
            'm',
            'a',
            'n',
            'd',
            '.',
        ] && forall|i: int| 8 <= i < 40 ==> is_lower_hex_char(#[trigger] r->0@[i]),
{
    let intent = match intent_id_v6(sleeve_id, incarnation, delivery_id, ordinal) {
        Some(intent) => intent,
        None => return None,
    };
    proof {
        reveal_strlit("command.");
    }
    let mut id = String::from_str("command.");
    push_hex(&mut id, &intent, 16);
    assert(id@ =~= seq!['c', 'o', 'm', 'm', 'a', 'n', 'd', '.'] + spec_hex(
        intent@.subrange(0, 16),
    ));
    proof {
        let prefix = seq!['c', 'o', 'm', 'm', 'a', 'n', 'd', '.'];
        assert(is_ascii_chars(prefix));
        assert forall|i: int| 0 <= i < prefix.len() implies is_identifier_byte(
            #[trigger] prefix[i] as u8,
        ) by {}
        lemma_prefixed_hex(prefix, intent@.subrange(0, 16));
        lemma_ascii_identifier(id@);
        let h = spec_hex(intent@.subrange(0, 16));
        lemma_hex_digits(intent@.subrange(0, 16));
        assert(id@.subrange(0, 8) =~= prefix);
        assert forall|i: int| 8 <= i < 40 implies is_lower_hex_char(#[trigger] id@[i]) by {
            assert(id@[i] == h[i - 8]);
        }
    }
    Some(id)
}

/// `tv3<mode>_` and the first 24 hex digits (12 bytes) of the IntentId.
pub open spec fn spec_provider_client_id_v6(
    mode: DeploymentModeV6,
    sleeve_id: Seq<char>,
    incarnation: u64,
    delivery_id: Seq<char>,
    ordinal: u32,
) -> Option<Seq<char>> {
    match spec_intent_id_v6(sleeve_id, incarnation, delivery_id, ordinal) {
        Some(intent) => Some(
            seq!['t', 'v', '3'] + mode_name(mode) + seq!['_'] + spec_hex(intent.subrange(0, 12)),
        ),
        None => None,
    }
}

/// The provider client id traderv3 derives for a place without a kernel `client_order_id`:
/// `tv3<mode>_<first 24 hex of IntentId>`, where `IntentId = sha256(DecisionId, ordinal)`
/// and `DecisionId` binds the Sleeve, its incarnation and the delivery. `None` when the
/// Sleeve id is not a 64-hex digest.
pub fn derive_provider_client_id_v6(
    mode: DeploymentModeV6,
    sleeve_id: &str,
    incarnation: u64,
    delivery_id: &str,
    ordinal: u32,
) -> (r: Option<String>)
    ensures
        match spec_provider_client_id_v6(mode, sleeve_id@, incarnation, delivery_id@, ordinal) {
            Some(id) => r is Some && r->0@ == id,
            None => r is None,
        },
        r is Some ==> spec_valid_provider_client_id(r->0@),
        r is Some <==> spec_command_id_v6(sleeve_id@, incarnation, delivery_id@, ordinal) is Some,
        r is Some ==> r->0@ == seq!['t', 'v', '3'] + mode_name(mode) + seq!['_'] + spec_command_id_v6(
            sleeve_id@,
            incarnation,
            delivery_id@,
            ordinal,
        )->0.subrange(8, 32),
{
    let intent = match intent_id_v6(sleeve_id, incarnation, delivery_id, ordinal) {
        Some(intent) => intent,
        None => return None,
    };
    proof {
        reveal_strlit("tv3");
        reveal_strlit("_");
    }
    let mut id = String::from_str("tv3");
    id.append(mode.as_str());
    id.append("_");
    push_hex(&mut id, &intent, 12);
    assert(id@ =~= seq!['t', 'v', '3'] + mode_name(mode) + seq!['_'] + spec_hex(
        intent@.subrange(0, 12),
    ));
    proof {
        let prefix = seq!['t', 'v', '3'] + mode_name(mode) + seq!['_'];
        assert(is_ascii_chars(prefix));
        assert forall|i: int| 0 <= i < prefix.len() implies is_identifier_byte(
            #[trigger] prefix[i] as u8,
        ) by {}
        lemma_prefixed_hex(prefix, intent@.subrange(0, 12));
        lemma_ascii_identifier(id@);
        let command = seq!['c', 'o', 'm', 'm', 'a', 'n', 'd', '.'] + spec_hex(
            intent@.subrange(0, 16),
        );
        assert(spec_hex(intent@.subrange(0, 12)) =~= command.subrange(8, 32));
    }
    Some(id)
}

impl DecisionContextV6 {
    /// The owner trigger of this decision; `None` for a Broker-state trigger.
    pub fn owner_trigger(&self) -> (r: Option<&OwnerTriggerV6>)
        ensures
            match self.trigger {
                TriggerV6::Owner(t) => r == Some(&t),
                TriggerV6::BrokerState { .. } => r is None,
            },
    {
        match &self.trigger {
            TriggerV6::Owner(trigger) => Some(trigger),
            TriggerV6::BrokerState { .. } => None,
        }
    }

    /// Every station whose data settles the Sleeve's event, as the owner projection lists them.
    pub fn contributor_stations(&self) -> (r: &Vec<String>)
        ensures
            r == &self.owner_state.opportunity.contributor_stations,
    {
        &self.owner_state.opportunity.contributor_stations
    }

    /// The generation every timer scheduled in this decision carries.
    pub fn timer_generation(&self) -> (r: String)
        ensures
            r@ == timer_generation_of(self.owner_state.delivery_id@),
    {
        timer_generation_for(&self.owner_state.delivery_id)
    }

    /// The id of the decision's command at `ordinal` ([`command_id_v6`]). The context's Sleeve
    /// id is a 64-hex digest and its delivery id at most 65535 bytes, as a valid context's are.
    pub fn command_id(&self, ordinal: usize) -> (r: String)
        requires
            ordinal <= u32::MAX,
            spec_command_id_v6(
                self.owner_state.sleeve.sleeve_id@,
                self.owner_state.sleeve.incarnation,
                self.owner_state.delivery_id@,
                ordinal as u32,
            ) is Some,
        ensures
            Some(r@) == spec_command_id_v6(
                self.owner_state.sleeve.sleeve_id@,
                self.owner_state.sleeve.incarnation,
                self.owner_state.delivery_id@,
                ordinal as u32,
            ),
    {
        let sleeve = &self.owner_state.sleeve;
        match command_id_v6(
            &sleeve.sleeve_id,
            sleeve.incarnation,
            &self.owner_state.delivery_id,
            ordinal as u32,
        ) {
            Some(id) => id,
            None => String::new(),
        }
    }
}

} // verus!
