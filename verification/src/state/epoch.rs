//! State of an epoch.
use crate::accounts::AccountType;
use crate::fixed_point::{
    FPInternal, FPUSDC, FixedPoint, checked_mul_spec, fp_opt, rescale, rescale_fits,
};
use crate::bytes::le_bytes;
use crate::state::encoding::{
    account_type_index, bool_byte, byte_vec_bytes, epoch_status_index, fp_bytes, i64_bytes,
    lemma_encoding_lengths, lemma_fp_bytes_len, push_account_type, push_bool, push_byte_vec,
    push_fp, push_i64, push_string, string_bytes,
};
use crate::state::return_rate::lemma_internal_precision_fits;
use crate::state::{ContractVersion, HasAccountType, option_max_len, vec_max_len};
use crate::u192::{lemma_pow10_57, lemma_pow10_monotone, limb_base, pow10, u192_bound};
use vstd::prelude::*;
use vstd::seq_lib::lemma_concat_associative;
use vstd::utf8::encode_utf8;

verus! {

/// Longest tickets URL.
pub const TICKETS_URL_MAX_LEN: usize = 50;

/// Longest tickets hash (512 bits).
pub const TICKETS_HASH_MAX_LEN: usize = 64;

/// Epoch status.
#[derive(Clone, Copy, Debug, PartialEq, Eq)]
pub enum EpochStatus {
    /// Deposits/Withdraws are allowed.
    Running,
    /// Funds are moved into the investment platform; deposits/withdraws are queued till the next
    /// epoch.
    Yielding,
    /// Funds are returned from the investment platform; the winners list is being uploaded.
    Finalising,
    /// Winners are declared.
    Ended,
}

/// The number of each epoch status in its encoding.
pub open spec fn epoch_status_code(s: EpochStatus) -> u32 {
    match s {
        EpochStatus::Running => 0,
        EpochStatus::Yielding => 1,
        EpochStatus::Finalising => 2,
        EpochStatus::Ended => 3,
    }
}

/// The epoch status with a given number, if any.
pub open spec fn epoch_status_of_code(code: u32) -> Option<EpochStatus> {
    match code {
        0 => Some(EpochStatus::Running),
        1 => Some(EpochStatus::Yielding),
        2 => Some(EpochStatus::Finalising),
        3 => Some(EpochStatus::Ended),
        _ => None,
    }
}

impl EpochStatus {
    /// The name of the status.
    pub fn as_display(&self) -> (r: &'static str)
        ensures
            r@ == match *self {
                EpochStatus::Running => "Running"@,
                EpochStatus::Yielding => "Yielding"@,
                EpochStatus::Finalising => "Finalising"@,
                EpochStatus::Ended => "Ended"@,
            },
    {
        match self {
            EpochStatus::Running => "Running",
            EpochStatus::Yielding => "Yielding",
            EpochStatus::Finalising => "Finalising",
            EpochStatus::Ended => "Ended",
        }
    }

    /// The status of a new epoch.
    pub fn default_status() -> (r: Self)
        ensures
            r == EpochStatus::Running,
    {
        EpochStatus::Running
    }

    /// The largest size of the byte encoding.
    pub fn max_len() -> (r: usize)
        ensures
            r == 1,
    {
        1
    }

    /// The number of the status.
    pub fn code(&self) -> (r: u32)
        ensures
            r == epoch_status_code(*self),
    {
        match self {
            EpochStatus::Running => 0,
            EpochStatus::Yielding => 1,
            EpochStatus::Finalising => 2,
            EpochStatus::Ended => 3,
        }
    }

    /// The status with the given number, if any.
    pub fn from_code(code: u32) -> (r: Option<Self>)
        ensures
            r == epoch_status_of_code(code),
    {
        match code {
            0 => Some(EpochStatus::Running),
            1 => Some(EpochStatus::Yielding),
            2 => Some(EpochStatus::Finalising),
            3 => Some(EpochStatus::Ended),
            _ => None,
        }
    }
}

/// Where the tickets of an epoch are published.
#[derive(Clone, Debug, PartialEq, Eq)]
pub struct TicketsInfo {
    pub num_tickets: u64,
    pub tickets_url: String,
    pub tickets_hash: Vec<u8>,
    pub tickets_version: u8,
}

impl TicketsInfo {
    /// The largest size of the byte encoding.
    pub fn max_len() -> (r: usize)
        ensures
            r == 131,
    {
        8 + vec_max_len(1, TICKETS_URL_MAX_LEN) + vec_max_len(1, TICKETS_HASH_MAX_LEN) + 1
    }
}

/// Jackpot insurance configuration.
#[derive(Clone, Copy, Debug, PartialEq, Eq)]
pub struct InsuranceCfg {
    pub premium: FPUSDC,
    pub probability: FPInternal,
}

/// The insurance owed for `num_tickets` tickets and a `jackpot` prize (both amounts in USDC
/// precision, the probability in 18 digits): `premium * num_tickets * jackpot * probability`,
/// each product a checked 18-digit multiplication, cut back to 6 digits.
pub open spec fn insurance_amount(premium: nat, num_tickets: nat, jackpot: nat, probability: nat) -> Option<nat> {
    match checked_mul_spec(rescale(premium, 6, 18), pow10(18) * num_tickets, 18) {
        Some(a) => match checked_mul_spec(a, rescale(jackpot, 6, 18), 18) {
            Some(b) => match checked_mul_spec(b, probability, 18) {
                Some(c) => Some(rescale(c, 18, 6)),
                None => None,
            },
            None => None,
        },
        None => None,
    }
}

impl InsuranceCfg {
    /// The insurance amount owed for the given number of tickets and jackpot prize, or `None`
    /// when a product overflows.
    pub fn calculate_amount(&self, num_tickets: u64, jackpot: FPUSDC) -> (r: Option<FPUSDC>)
        requires
            rescale_fits(self.premium@, 6, 18),
            rescale_fits(jackpot@, 6, 18),
        ensures
            fp_opt(r) == insurance_amount(
                self.premium@,
                num_tickets as nat,
                jackpot@,
                self.probability@,
            ),
    {
        proof {
            lemma_internal_precision_fits();
            lemma_pow10_57();
            lemma_pow10_monotone(12, 57);
            assert(pow10(18) * num_tickets < u192_bound()) by (nonlinear_arith)
                requires
                    pow10(18) == 1_000_000_000_000_000_000nat,
                    num_tickets < limb_base(),
            ;
        }
        let premium: FPInternal = self.premium.change_precision();
        let tickets = FPInternal::from_u64(num_tickets);
        let jackpot18: FPInternal = jackpot.change_precision();
        let a = match premium.checked_mul(tickets) {
            Some(x) => x,
            None => return None,
        };
        let b = match a.checked_mul(jackpot18) {
            Some(x) => x,
            None => return None,
        };
        let c = match b.checked_mul(self.probability) {
            Some(x) => x,
            None => return None,
        };
        Some(c.change_precision())
    }

    /// The largest size of the byte encoding.
    pub fn max_len() -> (r: usize)
        ensures
            r == 48,
    {
        FPUSDC::max_len() + FPInternal::max_len()
    }
}

/// How the yield of an epoch is split.
#[derive(Clone, Copy, Debug, PartialEq, Eq)]
pub struct YieldSplitCfg {
    pub jackpot: FPUSDC,
    pub insurance: InsuranceCfg,
    pub treasury_ratio: FixedPoint<3>,
    pub tier2_prize_share: u8,
    pub tier3_prize_share: u8,
}

impl YieldSplitCfg {
    /// The largest size of the byte encoding.
    pub fn max_len() -> (r: usize)
        ensures
            r == 98,
    {
        FPUSDC::max_len() + InsuranceCfg::max_len() + FixedPoint::<3>::max_len() + 1 + 1
    }
}

/// How the returns of an epoch are distributed.
#[derive(Clone, Copy, Debug, PartialEq, Eq)]
pub struct Returns {
    pub total: FPUSDC,
    pub deposit_back: FPUSDC,
    pub insurance: FPUSDC,
    pub treasury: FPUSDC,
    pub tier2_prize: FPUSDC,
    pub tier3_prize: FPUSDC,
}

impl Returns {
    /// The largest size of the byte encoding.
    pub fn max_len() -> (r: usize)
        ensures
            r == 144,
    {
        FPUSDC::max_len() * 6
    }
}

/// State of an epoch.
#[derive(Clone, Debug, PartialEq, Eq)]
pub struct Epoch {
    pub account_type: AccountType,
    pub contract_version: ContractVersion,
    pub is_initialized: bool,
    pub index: u64,
    pub status: EpochStatus,
    pub yield_split_cfg: YieldSplitCfg,
    pub start_at: i64,
    pub expected_end_at: i64,
    /// Set when going into yielding.
    pub tickets_info: Option<TicketsInfo>,
    /// Set when going into yielding.
    pub total_invested: Option<FPUSDC>,
    /// Set after the investor returns the funds.
    pub returns: Option<Returns>,
    /// Set after the investor returns the funds.
    pub draw_enabled: Option<bool>,
    /// Set after the epoch ends.
    pub end_at: Option<i64>,
}

impl HasAccountType for Epoch {
    open spec fn spec_account_type() -> AccountType {
        AccountType::Epoch
    }

    fn account_type() -> AccountType {
        AccountType::Epoch
    }
}

impl Epoch {
    /// Whether the account is initialized.
    pub fn is_initialized(&self) -> (r: bool)
        ensures
            r == self.is_initialized,
    {
        self.is_initialized
    }

    /// The largest size of the byte encoding.
    pub fn max_len() -> (r: usize)
        ensures
            r == 439,
    {
        1 + 1 + 1 + 8 + EpochStatus::max_len() + YieldSplitCfg::max_len() + 8 + 8 + option_max_len(
            TicketsInfo::max_len(),
        ) + option_max_len(FPUSDC::max_len()) + option_max_len(Returns::max_len())
            + option_max_len(1) + option_max_len(8)
    }
}

/// The encoding of the tickets information.
pub open spec fn tickets_info_bytes(t: TicketsInfo) -> Seq<u8> {
    le_bytes(t.num_tickets as nat, 8) + string_bytes(t.tickets_url@) + byte_vec_bytes(
        t.tickets_hash@,
    ) + seq![t.tickets_version]
}

/// Whether the tickets information can be encoded: its URL and hash lengths fit in four bytes.
pub open spec fn tickets_info_encodable(t: TicketsInfo) -> bool {
    encode_utf8(t.tickets_url@).len() <= u32::MAX && t.tickets_hash@.len() <= u32::MAX
}

/// Whether the URL and hash are within their longest lengths.
pub open spec fn tickets_info_within_limits(t: TicketsInfo) -> bool {
    encode_utf8(t.tickets_url@).len() <= TICKETS_URL_MAX_LEN && t.tickets_hash@.len()
        <= TICKETS_HASH_MAX_LEN
}

/// The encoding of a yield split configuration.
pub open spec fn yield_split_cfg_bytes(c: YieldSplitCfg) -> Seq<u8> {
    fp_bytes(c.jackpot) + fp_bytes(c.insurance.premium) + fp_bytes(c.insurance.probability)
        + fp_bytes(c.treasury_ratio) + seq![c.tier2_prize_share, c.tier3_prize_share]
}

/// The encoding of the returns of an epoch.
pub open spec fn returns_bytes(r: Returns) -> Seq<u8> {
    fp_bytes(r.total) + fp_bytes(r.deposit_back) + fp_bytes(r.insurance) + fp_bytes(r.treasury)
        + fp_bytes(r.tier2_prize) + fp_bytes(r.tier3_prize)
}

/// The encoding of the fields of an epoch up to its optional ones.
pub open spec fn epoch_header_bytes(e: Epoch) -> Seq<u8> {
    seq![account_type_index(e.account_type), 0u8, bool_byte(e.is_initialized)] + le_bytes(
        e.index as nat,
        8,
    ) + seq![epoch_status_index(e.status)] + yield_split_cfg_bytes(e.yield_split_cfg) + i64_bytes(
        e.start_at,
    ) + i64_bytes(e.expected_end_at)
}

/// The encoding of optional tickets information: a tag byte, then the value if present.
pub open spec fn tickets_option_bytes(o: Option<TicketsInfo>) -> Seq<u8> {
    match o {
        Some(t) => seq![1u8] + tickets_info_bytes(t),
        None => seq![0u8],
    }
}

/// The encoding of an optional fixed-point number.
pub open spec fn fp_option_bytes(o: Option<FPUSDC>) -> Seq<u8> {
    match o {
        Some(x) => seq![1u8] + fp_bytes(x),
        None => seq![0u8],
    }
}

/// The encoding of optional returns.
pub open spec fn returns_option_bytes(o: Option<Returns>) -> Seq<u8> {
    match o {
        Some(r) => seq![1u8] + returns_bytes(r),
        None => seq![0u8],
    }
}

/// The encoding of an optional boolean.
pub open spec fn bool_option_bytes(o: Option<bool>) -> Seq<u8> {
    match o {
        Some(b) => seq![1u8, bool_byte(b)],
        None => seq![0u8],
    }
}

/// The encoding of an optional signed integer.
pub open spec fn i64_option_bytes(o: Option<i64>) -> Seq<u8> {
    match o {
        Some(x) => seq![1u8] + i64_bytes(x),
        None => seq![0u8],
    }
}

/// The encoding of the optional fields of an epoch.
pub open spec fn epoch_option_bytes(e: Epoch) -> Seq<u8> {
    tickets_option_bytes(e.tickets_info) + fp_option_bytes(e.total_invested)
        + returns_option_bytes(e.returns) + bool_option_bytes(e.draw_enabled) + i64_option_bytes(
        e.end_at,
    )
}

/// The encoding of an epoch: its fields in order.
pub open spec fn epoch_bytes(e: Epoch) -> Seq<u8> {
    epoch_header_bytes(e) + epoch_option_bytes(e)
}

/// Whether an epoch can be encoded: its tickets information, if any, can.
pub open spec fn epoch_encodable(e: Epoch) -> bool {
    e.tickets_info matches Some(t) ==> tickets_info_encodable(t)
}

impl TicketsInfo {
    /// Appends the encoding of the tickets information.
    pub fn serialize(&self, out: &mut Vec<u8>)
        requires
            tickets_info_encodable(*self),
        ensures
            final(out)@ == old(out)@ + tickets_info_bytes(*self),
    {
        crate::bytes::push_le(out, self.num_tickets as u128, 8);
        push_string(out, &self.tickets_url);
        push_byte_vec(out, &self.tickets_hash);
        out.push(self.tickets_version);
        assert(final(out)@ =~= old(out)@ + tickets_info_bytes(*self));
    }
}

impl YieldSplitCfg {
    /// Appends the encoding of the configuration.
    pub fn serialize(&self, out: &mut Vec<u8>)
        ensures
            final(out)@ == old(out)@ + yield_split_cfg_bytes(*self),
    {
        push_fp(out, &self.jackpot);
        push_fp(out, &self.insurance.premium);
        push_fp(out, &self.insurance.probability);
        push_fp(out, &self.treasury_ratio);
        out.push(self.tier2_prize_share);
        out.push(self.tier3_prize_share);
        assert(final(out)@ =~= old(out)@ + yield_split_cfg_bytes(*self));
    }
}

impl Returns {
    /// Appends the encoding of the returns.
    pub fn serialize(&self, out: &mut Vec<u8>)
        ensures
            final(out)@ == old(out)@ + returns_bytes(*self),
    {
        push_fp(out, &self.total);
        push_fp(out, &self.deposit_back);
        push_fp(out, &self.insurance);
        push_fp(out, &self.treasury);
        push_fp(out, &self.tier2_prize);
        push_fp(out, &self.tier3_prize);
        assert(final(out)@ =~= old(out)@ + returns_bytes(*self));
    }
}

impl Epoch {
    /// Appends the encoding of the epoch.
    pub fn serialize(&self, out: &mut Vec<u8>)
        requires
            epoch_encodable(*self),
        ensures
            final(out)@ == old(out)@ + epoch_bytes(*self),
    {
        self.serialize_header(out);
        self.serialize_options(out);
        assert(final(out)@ =~= old(out)@ + epoch_bytes(*self));
    }

    /// Appends the encoding of the fields up to the optional ones.
    fn serialize_header(&self, out: &mut Vec<u8>)
        ensures
            final(out)@ == old(out)@ + epoch_header_bytes(*self),
    {
        push_account_type(out, self.account_type);
        out.push(0);
        push_bool(out, self.is_initialized);
        crate::bytes::push_le(out, self.index as u128, 8);
        out.push(
            match self.status {
                EpochStatus::Running => 0,
                EpochStatus::Yielding => 1,
                EpochStatus::Finalising => 2,
                EpochStatus::Ended => 3,
            },
        );
        self.yield_split_cfg.serialize(out);
        push_i64(out, self.start_at);
        push_i64(out, self.expected_end_at);
        assert(final(out)@ =~= old(out)@ + epoch_header_bytes(*self));
    }

    /// Appends the encoding of the optional fields.
    fn serialize_options(&self, out: &mut Vec<u8>)
        requires
            epoch_encodable(*self),
        ensures
            final(out)@ == old(out)@ + epoch_option_bytes(*self),
    {
        let ghost s0 = out@;
        let ghost a = tickets_option_bytes(self.tickets_info);
        let ghost b = fp_option_bytes(self.total_invested);
        let ghost c = returns_option_bytes(self.returns);
        let ghost d = bool_option_bytes(self.draw_enabled);
        let ghost e = i64_option_bytes(self.end_at);
        serialize_tickets_option(out, &self.tickets_info);
        serialize_fp_option(out, &self.total_invested);
        serialize_returns_option(out, &self.returns);
        serialize_bool_option(out, self.draw_enabled);
        serialize_i64_option(out, self.end_at);
        proof {
            lemma_concat_associative(s0, a, b);
            lemma_concat_associative(s0, a + b, c);
            lemma_concat_associative(s0, a + b + c, d);
            lemma_concat_associative(s0, a + b + c + d, e);
        }
    }
}

/// Appends optional tickets information.
fn serialize_tickets_option(out: &mut Vec<u8>, o: &Option<TicketsInfo>)
    requires
        *o matches Some(t) ==> tickets_info_encodable(t),
    ensures
        final(out)@ == old(out)@ + tickets_option_bytes(*o),
{
    match o {
        Some(t) => {
            out.push(1);
            t.serialize(out);
        },
        None => {
            out.push(0);
        },
    }
    assert(final(out)@ =~= old(out)@ + tickets_option_bytes(*o));
}

/// Appends an optional fixed-point number.
fn serialize_fp_option(out: &mut Vec<u8>, o: &Option<FPUSDC>)
    ensures
        final(out)@ == old(out)@ + fp_option_bytes(*o),
{
    match o {
        Some(x) => {
            out.push(1);
            push_fp(out, x);
        },
        None => {
            out.push(0);
        },
    }
    assert(final(out)@ =~= old(out)@ + fp_option_bytes(*o));
}

/// Appends optional returns.
fn serialize_returns_option(out: &mut Vec<u8>, o: &Option<Returns>)
    ensures
        final(out)@ == old(out)@ + returns_option_bytes(*o),
{
    match o {
        Some(r) => {
            out.push(1);
            r.serialize(out);
        },
        None => {
            out.push(0);
        },
    }
    assert(final(out)@ =~= old(out)@ + returns_option_bytes(*o));
}

/// Appends an optional boolean.
fn serialize_bool_option(out: &mut Vec<u8>, o: Option<bool>)
    ensures
        final(out)@ == old(out)@ + bool_option_bytes(o),
{
    match o {
        Some(b) => {
            out.push(1);
            push_bool(out, b);
        },
        None => {
            out.push(0);
        },
    }
    assert(final(out)@ =~= old(out)@ + bool_option_bytes(o));
}

/// Appends an optional signed integer.
fn serialize_i64_option(out: &mut Vec<u8>, o: Option<i64>)
    ensures
        final(out)@ == old(out)@ + i64_option_bytes(o),
{
    match o {
        Some(x) => {
            out.push(1);
            push_i64(out, x);
        },
        None => {
            out.push(0);
        },
    }
    assert(final(out)@ =~= old(out)@ + i64_option_bytes(o));
}

/// An epoch whose tickets URL and hash are within their longest lengths takes at most
/// `EPOCH_LEN` bytes, and exactly that many when every optional field is set and the URL
/// and hash have their longest lengths.
pub proof fn lemma_epoch_bytes_within_max_len(e: Epoch)
    requires
        e.tickets_info matches Some(t) ==> tickets_info_within_limits(t),
    ensures
        epoch_bytes(e).len() <= crate::state::EPOCH_LEN,
        ({
            &&& e.tickets_info matches Some(t) && encode_utf8(t.tickets_url@).len()
                == TICKETS_URL_MAX_LEN && t.tickets_hash@.len() == TICKETS_HASH_MAX_LEN
            &&& e.total_invested is Some
            &&& e.returns is Some
            &&& e.draw_enabled is Some
            &&& e.end_at is Some
        }) ==> epoch_bytes(e).len() == crate::state::EPOCH_LEN,
{
    lemma_encoding_lengths();
    lemma_fp_bytes_len(e.yield_split_cfg.jackpot);
    lemma_fp_bytes_len(e.yield_split_cfg.insurance.premium);
    lemma_fp_bytes_len(e.yield_split_cfg.insurance.probability);
    lemma_fp_bytes_len(e.yield_split_cfg.treasury_ratio);
    match e.total_invested {
        Some(x) => lemma_fp_bytes_len(x),
        None => {},
    }
    match e.returns {
        Some(r) => {
            lemma_fp_bytes_len(r.total);
            lemma_fp_bytes_len(r.deposit_back);
            lemma_fp_bytes_len(r.insurance);
            lemma_fp_bytes_len(r.treasury);
            lemma_fp_bytes_len(r.tier2_prize);
            lemma_fp_bytes_len(r.tier3_prize);
        },
        None => {},
    }
}

} // verus!
