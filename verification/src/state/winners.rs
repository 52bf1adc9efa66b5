//! Winners of an epoch: a summary and pages of winners.
use crate::accounts::AccountType;
use crate::fixed_point::FPUSDC;
use crate::pubkey::Pubkey;
use crate::state::{ContractVersion, HasAccountType, vec_max_len};
use crate::bytes::{le_bytes, push_le};
use crate::state::encoding::{
    bool_byte, fp_bytes, header_bytes, lemma_encoding_lengths, lemma_fp_bytes_len, push_bool,
    push_fp, push_header, push_pubkey,
};
use vstd::prelude::*;

verus! {

/// Largest number of winners in a page (so that a page fits in a transaction).
pub const MAX_NUM_WINNERS_PER_PAGE: usize = 10;

/// Summary of the winners of an epoch.
#[derive(Clone, Debug, PartialEq, Eq)]
pub struct EpochWinnersMeta {
    pub account_type: AccountType,
    pub contract_version: ContractVersion,
    pub is_initialized: bool,
    pub epoch_pubkey: Pubkey,
    pub epoch_index: u64,
    pub tier1_meta: TierWinnersMeta,
    pub tier2_meta: TierWinnersMeta,
    pub tier3_meta: TierWinnersMeta,
    pub total_num_pages: u32,
    pub total_num_winners: u32,
    pub jackpot_claimable: bool,
    pub status: WinnerProcessingStatus,
}

impl HasAccountType for EpochWinnersMeta {
    open spec fn spec_account_type() -> AccountType {
        AccountType::EpochWinnersMeta
    }

    fn account_type() -> AccountType {
        AccountType::EpochWinnersMeta
    }
}

impl EpochWinnersMeta {
    /// The largest size of the byte encoding.
    pub fn max_len() -> (r: usize)
        ensures
            r == 253,
    {
        1 + 1 + 1 + 32 + 8 + TierWinnersMeta::max_len() * 3 + 4 + 4 + 1
            + WinnerProcessingStatus::max_len()
    }
}

/// Metadata of a prize tier.
#[derive(Clone, Copy, Debug, PartialEq, Eq)]
pub struct TierWinnersMeta {
    /// Total prize of this tier.
    pub total_prize: FPUSDC,
    /// Total number of winners in this tier.
    pub total_num_winners: u32,
    /// Total number of winning tickets in this tier.
    pub total_num_winning_tickets: u32,
}

impl TierWinnersMeta {
    /// The largest size of the byte encoding.
    pub fn max_len() -> (r: usize)
        ensures
            r == 32,
    {
        FPUSDC::max_len() + 4 + 4
    }
}

/// Status of the winners list upload.
#[derive(Clone, Copy, Debug, PartialEq, Eq)]
pub enum WinnerProcessingStatus {
    Completed,
    InProgress {
        num_pages: u32,
        num_processed_winners: u32,
        tier1_status: TierStatus,
        tier2_status: TierStatus,
        tier3_status: TierStatus,
    },
}

impl WinnerProcessingStatus {
    /// The largest size of the byte encoding.
    pub fn max_len() -> (r: usize)
        ensures
            r == 105,
    {
        1 + 4 + 4 + TierStatus::max_len() * 3
    }
}

/// Per-tier status of the winners list upload.
#[derive(Clone, Copy, Debug, PartialEq, Eq)]
pub struct TierStatus {
    /// Remaining number of winners to be uploaded.
    pub rem_num_winners: u32,
    /// Remaining number of tickets to be uploaded.
    pub rem_num_winning_tickets: u32,
    /// Remaining prize to be allocated.
    pub rem_prize: FPUSDC,
}

impl TierStatus {
    /// The largest size of the byte encoding.
    pub fn max_len() -> (r: usize)
        ensures
            r == 32,
    {
        4 + 4 + FPUSDC::max_len()
    }
}

/// A page of winners of an epoch.
#[derive(Clone, Debug, PartialEq, Eq)]
pub struct EpochWinnersPage {
    pub account_type: AccountType,
    pub contract_version: ContractVersion,
    pub is_initialized: bool,
    pub page_index: u32,
    pub winners: Vec<Winner>,
}

impl HasAccountType for EpochWinnersPage {
    open spec fn spec_account_type() -> AccountType {
        AccountType::EpochWinnersPage
    }

    fn account_type() -> AccountType {
        AccountType::EpochWinnersPage
    }
}

impl EpochWinnersPage {
    /// The largest size of the byte encoding.
    pub fn max_len() -> (r: usize)
        ensures
            r == 631,
    {
        1 + 1 + 1 + 4 + vec_max_len(Winner::max_len(), MAX_NUM_WINNERS_PER_PAGE)
    }
}

/// A winner.
#[derive(Clone, Copy, Debug, PartialEq, Eq)]
pub struct Winner {
    /// Index of this winner in the page.
    pub index: u32,
    /// Owner address.
    pub address: Pubkey,
    /// Tier of the prize.
    pub tier: u8,
    /// Prize amount.
    pub prize: FPUSDC,
    /// Whether the prize is claimed.
    pub claimed: bool,
}

impl Winner {
    /// The largest size of the byte encoding.
    pub fn max_len() -> (r: usize)
        ensures
            r == 62,
    {
        4 + 32 + 1 + FPUSDC::max_len() + 1
    }
}

/// The encoding of a tier's summary.
pub open spec fn tier_winners_meta_bytes(m: TierWinnersMeta) -> Seq<u8> {
    fp_bytes(m.total_prize) + le_bytes(m.total_num_winners as nat, 4) + le_bytes(
        m.total_num_winning_tickets as nat,
        4,
    )
}

/// The encoding of a tier's processing status.
pub open spec fn tier_status_bytes(t: TierStatus) -> Seq<u8> {
    le_bytes(t.rem_num_winners as nat, 4) + le_bytes(t.rem_num_winning_tickets as nat, 4)
        + fp_bytes(t.rem_prize)
}

/// The encoding of the processing status: the variant's position, then its fields.
pub open spec fn winner_processing_status_bytes(s: WinnerProcessingStatus) -> Seq<u8> {
    match s {
        WinnerProcessingStatus::Completed => seq![0u8],
        WinnerProcessingStatus::InProgress {
            num_pages,
            num_processed_winners,
            tier1_status,
            tier2_status,
            tier3_status,
        } => seq![1u8] + le_bytes(num_pages as nat, 4) + le_bytes(num_processed_winners as nat, 4)
            + tier_status_bytes(tier1_status) + tier_status_bytes(tier2_status) + tier_status_bytes(
            tier3_status,
        ),
    }
}

/// The encoding of the winners summary account: its fields in order.
pub open spec fn epoch_winners_meta_bytes(m: EpochWinnersMeta) -> Seq<u8> {
    header_bytes(m.account_type, m.is_initialized) + m.epoch_pubkey.0@ + le_bytes(
        m.epoch_index as nat,
        8,
    ) + tier_winners_meta_bytes(m.tier1_meta) + tier_winners_meta_bytes(m.tier2_meta)
        + tier_winners_meta_bytes(m.tier3_meta) + le_bytes(m.total_num_pages as nat, 4) + le_bytes(
        m.total_num_winners as nat,
        4,
    ) + seq![bool_byte(m.jackpot_claimable)] + winner_processing_status_bytes(m.status)
}

/// The encoding of a winner.
pub open spec fn winner_bytes(w: Winner) -> Seq<u8> {
    le_bytes(w.index as nat, 4) + w.address.0@ + seq![w.tier] + fp_bytes(w.prize) + seq![
        bool_byte(w.claimed),
    ]
}

/// The encodings of winners, one after the other.
pub open spec fn winners_bytes(ws: Seq<Winner>) -> Seq<u8>
    decreases ws.len(),
{
    if ws.len() == 0 {
        seq![]
    } else {
        winners_bytes(ws.drop_last()) + winner_bytes(ws.last())
    }
}

/// The encoding of a page of winners: its fields in order, the winners after their count.
pub open spec fn epoch_winners_page_bytes(p: EpochWinnersPage) -> Seq<u8> {
    header_bytes(p.account_type, p.is_initialized) + le_bytes(p.page_index as nat, 4) + le_bytes(
        p.winners@.len(),
        4,
    ) + winners_bytes(p.winners@)
}

impl TierWinnersMeta {
    /// Appends the encoding of the summary.
    pub fn serialize(&self, out: &mut Vec<u8>)
        ensures
            final(out)@ == old(out)@ + tier_winners_meta_bytes(*self),
    {
        push_fp(out, &self.total_prize);
        push_le(out, self.total_num_winners as u128, 4);
        push_le(out, self.total_num_winning_tickets as u128, 4);
        assert(final(out)@ =~= old(out)@ + tier_winners_meta_bytes(*self));
    }
}

impl TierStatus {
    /// Appends the encoding of the status.
    pub fn serialize(&self, out: &mut Vec<u8>)
        ensures
            final(out)@ == old(out)@ + tier_status_bytes(*self),
    {
        push_le(out, self.rem_num_winners as u128, 4);
        push_le(out, self.rem_num_winning_tickets as u128, 4);
        push_fp(out, &self.rem_prize);
        assert(final(out)@ =~= old(out)@ + tier_status_bytes(*self));
    }
}

impl WinnerProcessingStatus {
    /// Appends the encoding of the status.
    pub fn serialize(&self, out: &mut Vec<u8>)
        ensures
            final(out)@ == old(out)@ + winner_processing_status_bytes(*self),
    {
        match self {
            WinnerProcessingStatus::Completed => {
                out.push(0);
            },
            WinnerProcessingStatus::InProgress {
                num_pages,
                num_processed_winners,
                tier1_status,
                tier2_status,
                tier3_status,
            } => {
                out.push(1);
                push_le(out, *num_pages as u128, 4);
                push_le(out, *num_processed_winners as u128, 4);
                tier1_status.serialize(out);
                tier2_status.serialize(out);
                tier3_status.serialize(out);
            },
        }
        assert(final(out)@ =~= old(out)@ + winner_processing_status_bytes(*self));
    }
}

impl EpochWinnersMeta {
    /// Appends the encoding of the account.
    pub fn serialize(&self, out: &mut Vec<u8>)
        ensures
            final(out)@ == old(out)@ + epoch_winners_meta_bytes(*self),
    {
        push_header(out, self.account_type, self.is_initialized);
        push_pubkey(out, &self.epoch_pubkey);
        push_le(out, self.epoch_index as u128, 8);
        self.tier1_meta.serialize(out);
        self.tier2_meta.serialize(out);
        self.tier3_meta.serialize(out);
        push_le(out, self.total_num_pages as u128, 4);
        push_le(out, self.total_num_winners as u128, 4);
        push_bool(out, self.jackpot_claimable);
        self.status.serialize(out);
        assert(final(out)@ =~= old(out)@ + epoch_winners_meta_bytes(*self));
    }
}

impl Winner {
    /// Appends the encoding of the winner.
    pub fn serialize(&self, out: &mut Vec<u8>)
        ensures
            final(out)@ == old(out)@ + winner_bytes(*self),
    {
        push_le(out, self.index as u128, 4);
        push_pubkey(out, &self.address);
        out.push(self.tier);
        push_fp(out, &self.prize);
        push_bool(out, self.claimed);
        assert(final(out)@ =~= old(out)@ + winner_bytes(*self));
    }
}

impl EpochWinnersPage {
    /// Appends the encoding of the page; its winners must be counted in four bytes.
    pub fn serialize(&self, out: &mut Vec<u8>)
        requires
            self.winners@.len() <= u32::MAX,
        ensures
            final(out)@ == old(out)@ + epoch_winners_page_bytes(*self),
    {
        push_header(out, self.account_type, self.is_initialized);
        push_le(out, self.page_index as u128, 4);
        push_le(out, self.winners.len() as u128, 4);
        let ghost start = out@;
        let mut i: usize = 0;
        assert(self.winners@.take(0) =~= Seq::<Winner>::empty());
        while i < self.winners.len()
            invariant
                i <= self.winners@.len(),
                out@ == start + winners_bytes(self.winners@.take(i as int)),
            decreases self.winners@.len() - i,
        {
            let ghost before = out@;
            self.winners[i].serialize(out);
            proof {
                let t = self.winners@.take(i + 1);
                assert(t.drop_last() =~= self.winners@.take(i as int));
                assert(out@ =~= start + winners_bytes(t));
            }
            i = i + 1;
        }
        assert(self.winners@.take(self.winners@.len() as int) =~= self.winners@);
        assert(final(out)@ =~= old(out)@ + epoch_winners_page_bytes(*self));
    }
}

/// A winner takes 62 bytes.
proof fn lemma_winner_bytes_len(w: Winner)
    ensures
        winner_bytes(w).len() == 62,
{
    lemma_encoding_lengths();
    lemma_fp_bytes_len(w.prize);
}

/// Winners take 62 bytes each.
proof fn lemma_winners_bytes_len(ws: Seq<Winner>)
    ensures
        winners_bytes(ws).len() == 62 * ws.len(),
    decreases ws.len(),
{
    if ws.len() > 0 {
        lemma_winners_bytes_len(ws.drop_last());
        lemma_winner_bytes_len(ws.last());
    }
}

/// A winners summary takes at most `EPOCH_WINNERS_META_LEN` bytes, exactly that many while
/// winners are being processed.
pub proof fn lemma_epoch_winners_meta_bytes_len(m: EpochWinnersMeta)
    ensures
        epoch_winners_meta_bytes(m).len() <= crate::state::EPOCH_WINNERS_META_LEN,
        m.status is InProgress ==> epoch_winners_meta_bytes(m).len()
            == crate::state::EPOCH_WINNERS_META_LEN,
{
    lemma_encoding_lengths();
    lemma_fp_bytes_len(m.tier1_meta.total_prize);
    lemma_fp_bytes_len(m.tier2_meta.total_prize);
    lemma_fp_bytes_len(m.tier3_meta.total_prize);
    match m.status {
        WinnerProcessingStatus::InProgress { tier1_status, tier2_status, tier3_status, .. } => {
            lemma_fp_bytes_len(tier1_status.rem_prize);
            lemma_fp_bytes_len(tier2_status.rem_prize);
            lemma_fp_bytes_len(tier3_status.rem_prize);
        },
        WinnerProcessingStatus::Completed => {},
    }
}

/// A page of at most `MAX_NUM_WINNERS_PER_PAGE` winners takes at most `EPOCH_WINNERS_PAGE_LEN`
/// bytes, exactly that many when it is full.
pub proof fn lemma_epoch_winners_page_bytes_len(p: EpochWinnersPage)
    requires
        p.winners@.len() <= MAX_NUM_WINNERS_PER_PAGE,
    ensures
        epoch_winners_page_bytes(p).len() <= crate::state::EPOCH_WINNERS_PAGE_LEN,
        p.winners@.len() == MAX_NUM_WINNERS_PER_PAGE ==> epoch_winners_page_bytes(p).len()
            == crate::state::EPOCH_WINNERS_PAGE_LEN,
{
    lemma_encoding_lengths();
    lemma_winners_bytes_len(p.winners@);
}

} // verus!
