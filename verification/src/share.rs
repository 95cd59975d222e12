//! Sharing preferences for a privately submitted transaction, and their
//! conversion into the relay-bound submission payload.

use ethers::types::{Bytes, U256};
use vstd::prelude::*;

verus! {

/// ethers' 256-bit unsigned integer. A block number is carried through the
/// options and the payload unchanged; nothing here reads its value.
#[verifier::external_type_specification]
#[verifier::external_body]
pub struct ExU256(U256);

/// ethers' byte buffer holding a signed, serialized transaction. It is
/// carried into the payload unchanged; nothing here reads its contents.
#[verifier::external_type_specification]
#[verifier::external_body]
pub struct ExBytes(Bytes);

/// The four independent disclosure flags: which pieces of the transaction
/// the relay's auction may see. Default is all false (maximum privacy).
#[derive(Clone, Copy, PartialEq, Eq, Structural, Debug)]
pub struct FlashbotsHints {
    pub logs: bool,
    pub calldata: bool,
    pub function_selector: bool,
    pub contract_address: bool,
}

impl FlashbotsHints {
    /// The default hint set: every flag false, nothing disclosed.
    pub open spec fn spec_default() -> FlashbotsHints {
        FlashbotsHints {
            logs: false,
            calldata: false,
            function_selector: false,
            contract_address: false,
        }
    }
}

impl Default for FlashbotsHints {
    fn default() -> (r: Self)
        ensures
            r == FlashbotsHints::spec_default(),
    {
        FlashbotsHints {
            logs: false,
            calldata: false,
            function_selector: false,
            contract_address: false,
        }
    }
}

/// One disclosure flag by name; used to state how chains of `with_*`
/// calls accumulate.
#[derive(Clone, Copy, Debug)]
pub enum Hint {
    Logs,
    Calldata,
    FunctionSelector,
    ContractAddress,
}

/// Whether the flag `f` is set in `h`.
pub open spec fn hint_set(h: FlashbotsHints, f: Hint) -> bool {
    match f {
        Hint::Logs => h.logs,
        Hint::Calldata => h.calldata,
        Hint::FunctionSelector => h.function_selector,
        Hint::ContractAddress => h.contract_address,
    }
}

/// `h` with the flag `f` forced to true and every other flag unchanged.
pub open spec fn set_hint(h: FlashbotsHints, f: Hint) -> FlashbotsHints {
    match f {
        Hint::Logs => FlashbotsHints {
            logs: true,
            calldata: h.calldata,
            function_selector: h.function_selector,
            contract_address: h.contract_address,
        },
        Hint::Calldata => FlashbotsHints {
            logs: h.logs,
            calldata: true,
            function_selector: h.function_selector,
            contract_address: h.contract_address,
        },
        Hint::FunctionSelector => FlashbotsHints {
            logs: h.logs,
            calldata: h.calldata,
            function_selector: true,
            contract_address: h.contract_address,
        },
        Hint::ContractAddress => FlashbotsHints {
            logs: h.logs,
            calldata: h.calldata,
            function_selector: h.function_selector,
            contract_address: true,
        },
    }
}

/// An optional upper inclusion-block bound paired with a hint set.
/// Immutable: every `with_*` transform returns a new value.
#[derive(Clone, PartialEq, Eq, Debug)]
pub struct ShareTransactionOptions {
    pub max_block_number: Option<U256>,
    pub preferences: FlashbotsHints,
}

impl ShareTransactionOptions {
    /// The default options: no block bound, no disclosure.
    pub open spec fn spec_default() -> ShareTransactionOptions {
        ShareTransactionOptions {
            max_block_number: None,
            preferences: FlashbotsHints::spec_default(),
        }
    }

    /// `self` with the flag `f` forced to true; the block bound and the
    /// other flags are unchanged.
    pub open spec fn spec_with_hint(self, f: Hint) -> ShareTransactionOptions {
        ShareTransactionOptions {
            max_block_number: self.max_block_number,
            preferences: set_hint(self.preferences, f),
        }
    }

    pub fn new(max_block_number: Option<U256>, preferences: FlashbotsHints) -> (r: Self)
        ensures
            r == (ShareTransactionOptions { max_block_number, preferences }),
    {
        Self { max_block_number, preferences }
    }

    pub fn with_max_block_number(&self, max_block_number: U256) -> (r: Self)
        ensures
            r == (ShareTransactionOptions {
                max_block_number: Some(max_block_number),
                preferences: self.preferences,
            }),
    {
        Self { max_block_number: Some(max_block_number), preferences: self.preferences.clone() }
    }

    pub fn with_logs(&self) -> (r: Self)
        ensures
            r == self.spec_with_hint(Hint::Logs),
    {
        Self {
            max_block_number: self.max_block_number,
            preferences: FlashbotsHints {
                logs: true,
                calldata: self.preferences.calldata,
                function_selector: self.preferences.function_selector,
                contract_address: self.preferences.contract_address,
            },
        }
    }

    pub fn with_calldata(&self) -> (r: Self)
        ensures
            r == self.spec_with_hint(Hint::Calldata),
    {
        Self {
            max_block_number: self.max_block_number,
            preferences: FlashbotsHints {
                logs: self.preferences.logs,
                calldata: true,
                function_selector: self.preferences.function_selector,
                contract_address: self.preferences.contract_address,
            },
        }
    }

    pub fn with_function_selector(&self) -> (r: Self)
        ensures
            r == self.spec_with_hint(Hint::FunctionSelector),
    {
        Self {
            max_block_number: self.max_block_number,
            preferences: FlashbotsHints {
                logs: self.preferences.logs,
                calldata: self.preferences.calldata,
                function_selector: true,
                contract_address: self.preferences.contract_address,
            },
        }
    }

    pub fn with_contract_address(&self) -> (r: Self)
        ensures
            r == self.spec_with_hint(Hint::ContractAddress),
    {
        Self {
            max_block_number: self.max_block_number,
            preferences: FlashbotsHints {
                logs: self.preferences.logs,
                calldata: self.preferences.calldata,
                function_selector: self.preferences.function_selector,
                contract_address: true,
            },
        }
    }
}

impl Default for ShareTransactionOptions {
    fn default() -> (r: Self)
        ensures
            r == ShareTransactionOptions::spec_default(),
    {
        ShareTransactionOptions {
            max_block_number: None,
            preferences: FlashbotsHints::default(),
        }
    }
}

/// The relay-bound submission payload: the signed transaction, the block
/// bound copied verbatim, and the auction preferences.
#[derive(PartialEq, Eq, Debug)]
pub struct InternalFlashbotsPayload {
    pub signed_tx: Bytes,
    pub max_block_number: Option<U256>,
    pub preferences: InternalFlashbotsPayloadPreferences,
}

/// The payload's preference block: `fast` is always true; `auction` is
/// present exactly when some disclosure or a block bound was requested.
#[derive(Clone, Copy, PartialEq, Eq, Structural, Debug)]
pub struct InternalFlashbotsPayloadPreferences {
    pub fast: bool,
    pub auction: Option<FlashbotsAuctionPreferences>,
}

/// The auction toggle together with the full hint set to disclose.
#[derive(Clone, Copy, PartialEq, Eq, Structural, Debug)]
pub struct FlashbotsAuctionPreferences {
    pub enable: bool,
    pub hint: Option<FlashbotsHints>,
}

/// Whether the options ask for the relay's auction at all: a block bound
/// is present, or at least one flag departs from the all-false default.
pub open spec fn spec_auction_enabled(opts: ShareTransactionOptions) -> bool {
    opts.max_block_number is Some || opts.preferences != FlashbotsHints::spec_default()
}

/// The preference block that the options convert to: `fast` always true;
/// `auction` absent when nothing was requested, else enabled and carrying
/// the full current hint set.
pub open spec fn spec_preferences_of(
    opts: ShareTransactionOptions,
) -> InternalFlashbotsPayloadPreferences {
    InternalFlashbotsPayloadPreferences {
        fast: true,
        auction: if spec_auction_enabled(opts) {
            Some(FlashbotsAuctionPreferences { enable: true, hint: Some(opts.preferences) })
        } else {
            None
        },
    }
}

/// The whole payload built for one submission: the signed transaction and
/// the block bound pass through unchanged.
pub open spec fn spec_payload_of(
    signed_tx: Bytes,
    opts: ShareTransactionOptions,
) -> InternalFlashbotsPayload {
    InternalFlashbotsPayload {
        signed_tx,
        max_block_number: opts.max_block_number,
        preferences: spec_preferences_of(opts),
    }
}

impl vstd::std_specs::convert::FromSpecImpl<ShareTransactionOptions>
    for InternalFlashbotsPayloadPreferences {
    open spec fn obeys_from_spec() -> bool {
        true
    }

    open spec fn from_spec(opts: ShareTransactionOptions) -> Self {
        spec_preferences_of(opts)
    }
}

impl From<ShareTransactionOptions> for InternalFlashbotsPayloadPreferences {
    fn from(opts: ShareTransactionOptions) -> (r: Self) {
        let enable = opts.max_block_number.is_some()
            || opts.preferences != FlashbotsHints::default();
        Self {
            fast: true,
            auction: match enable {
                true => Some(
                    FlashbotsAuctionPreferences { enable, hint: Some(opts.preferences) },
                ),
                false => None,
            },
        }
    }
}

/// The options after forcing every flag in `s` to true, in order.
pub open spec fn spec_apply_hints(
    o: ShareTransactionOptions,
    s: Seq<Hint>,
) -> ShareTransactionOptions
    decreases s.len(),
{
    if s.len() == 0 {
        o
    } else {
        spec_apply_hints(o.spec_with_hint(s[0]), s.subrange(1, s.len() as int))
    }
}

/// A chain of `with_*` calls OR-accumulates: after applying the flags in
/// `s`, a flag is set exactly when it was already set or occurs somewhere
/// in the chain; the block bound is untouched.
pub proof fn lemma_hint_accumulation(o: ShareTransactionOptions, s: Seq<Hint>, f: Hint)
    ensures
        hint_set(spec_apply_hints(o, s).preferences, f) <==> (hint_set(o.preferences, f)
            || s.contains(f)),
        spec_apply_hints(o, s).max_block_number == o.max_block_number,
    decreases s.len(),
{
    if s.len() == 0 {
        assert(!s.contains(f));
    } else {
        let rest = s.subrange(1, s.len() as int);
        lemma_hint_accumulation(o.spec_with_hint(s[0]), rest, f);
        assert(s.contains(f) <==> (s[0] == f || rest.contains(f))) by {
            if s.contains(f) {
                let i = choose|i: int| 0 <= i < s.len() && s[i] == f;
                if i > 0 {
                    assert(rest[i - 1] == f);
                }
            }
            if rest.contains(f) {
                let j = choose|j: int| 0 <= j < rest.len() && rest[j] == f;
                assert(s[j + 1] == f);
            }
        }
    }
}

/// Order independence: two chains that set the same collection of flags
/// produce structurally equal options, whatever the order and repetition.
pub proof fn lemma_hint_order_independence(
    o: ShareTransactionOptions,
    s1: Seq<Hint>,
    s2: Seq<Hint>,
)
    requires
        forall|f: Hint| s1.contains(f) == s2.contains(f),
    ensures
        spec_apply_hints(o, s1) == spec_apply_hints(o, s2),
{
    let a = spec_apply_hints(o, s1);
    let b = spec_apply_hints(o, s2);
    lemma_hint_accumulation(o, s1, Hint::Logs);
    lemma_hint_accumulation(o, s2, Hint::Logs);
    lemma_hint_accumulation(o, s1, Hint::Calldata);
    lemma_hint_accumulation(o, s2, Hint::Calldata);
    lemma_hint_accumulation(o, s1, Hint::FunctionSelector);
    lemma_hint_accumulation(o, s2, Hint::FunctionSelector);
    lemma_hint_accumulation(o, s1, Hint::ContractAddress);
    lemma_hint_accumulation(o, s2, Hint::ContractAddress);
    assert(a.preferences == b.preferences);
}

/// Monotonicity: a flag already set stays set under any further `with_*`
/// flag transform.
pub proof fn lemma_with_monotonic(o: ShareTransactionOptions, f: Hint, g: Hint)
    requires
        hint_set(o.preferences, f),
    ensures
        hint_set(o.spec_with_hint(g).preferences, f),
{
}

/// Wholly default options disable the auction: the payload preferences
/// hold `fast: true` and no auction block at all.
pub proof fn lemma_default_options_disable_auction()
    ensures
        spec_preferences_of(ShareTransactionOptions::spec_default())
            == (InternalFlashbotsPayloadPreferences { fast: true, auction: None }),
{
}

/// A block bound alone enables the auction, and the hint carried is the
/// all-false default set.
pub proof fn lemma_block_bound_enables_auction(o: ShareTransactionOptions)
    requires
        o.max_block_number is Some,
        o.preferences == FlashbotsHints::spec_default(),
    ensures
        spec_preferences_of(o) == (InternalFlashbotsPayloadPreferences {
            fast: true,
            auction: Some(FlashbotsAuctionPreferences {
                enable: true,
                hint: Some(FlashbotsHints::spec_default()),
            }),
        }),
{
}

/// Any disclosure enables the auction, with or without a block bound, and
/// the hint carries the full current hint set.
pub proof fn lemma_hint_enables_auction(o: ShareTransactionOptions)
    requires
        o.preferences != FlashbotsHints::spec_default(),
    ensures
        spec_preferences_of(o).fast,
        spec_preferences_of(o).auction == Some(FlashbotsAuctionPreferences {
            enable: true,
            hint: Some(o.preferences),
        }),
{
}

/// Determinism: two payloads built from the same signed transaction and
/// the same options are structurally identical.
pub proof fn lemma_conversion_deterministic(
    signed_tx: Bytes,
    opts: ShareTransactionOptions,
    p1: InternalFlashbotsPayload,
    p2: InternalFlashbotsPayload,
)
    requires
        p1 == spec_payload_of(signed_tx, opts),
        p2 == spec_payload_of(signed_tx, opts),
    ensures
        p1 == p2,
{
}

} // verus!
