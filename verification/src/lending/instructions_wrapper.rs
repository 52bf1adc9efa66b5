//! Builders of the lending program's instructions, for programs and clients that call it.
use crate::bytes::{le_bytes, lemma_le_bytes_len, push_le};
use crate::instruction::{AccountMeta, Instruction, same_pubkey, spl_token_id, spl_token_id_bytes};
use crate::pubkey::Pubkey;
use vstd::prelude::*;

verus! {

/// The data of an instruction with an amount: the instruction's tag, then the amount in eight
/// little-endian bytes.
pub open spec fn param_bytes(tag: u8, amount: u64) -> Seq<u8> {
    seq![tag] + le_bytes(amount as nat, 8)
}

/// Encodes an instruction tag and an amount.
fn param_to_vec(instruction: u8, amount: u64) -> (r: Vec<u8>)
    ensures
        r@ == param_bytes(instruction, amount),
{
    let mut buf: Vec<u8> = Vec::new();
    buf.push(instruction);
    push_le(&mut buf, amount as u128, 8);
    assert(buf@ =~= param_bytes(instruction, amount));
    buf
}

/// Parameters of a deposit instruction.
#[derive(Clone, Copy, Debug, PartialEq, Eq)]
pub struct DepositParam {
    instruction: u8,
    amount: u64,
}

impl DepositParam {
    /// The instruction data for `amount`.
    pub fn serialize_to_vec(amount: u64) -> (r: Vec<u8>)
        ensures
            r@ == param_bytes(4, amount),
    {
        let param = DepositParam { instruction: 4, amount };
        param_to_vec(param.instruction, param.amount)
    }
}

/// Parameters of a withdrawal of shares.
#[derive(Clone, Copy, Debug, PartialEq, Eq)]
pub struct WithdrawParam {
    instruction: u8,
    amount: u64,
}

impl WithdrawParam {
    /// The instruction data for `amount`.
    pub fn serialize_to_vec(amount: u64) -> (r: Vec<u8>)
        ensures
            r@ == param_bytes(5, amount),
    {
        let param = WithdrawParam { instruction: 5, amount };
        param_to_vec(param.instruction, param.amount)
    }
}

/// Parameters of a withdrawal of an amount of liquidity.
#[derive(Clone, Copy, Debug, PartialEq, Eq)]
pub struct WithdrawParam2 {
    instruction: u8,
    amount: u64,
}

impl WithdrawParam2 {
    /// The instruction data for `amount`.
    pub fn serialize_to_vec(amount: u64) -> (r: Vec<u8>)
        ensures
            r@ == param_bytes(6, amount),
    {
        let param = WithdrawParam2 { instruction: 6, amount };
        param_to_vec(param.instruction, param.amount)
    }
}

/// Parameters of a borrow instruction.
#[derive(Clone, Copy, Debug, PartialEq, Eq)]
pub struct BorrowParam {
    instruction: u8,
    amount: u64,
}

impl BorrowParam {
    /// The instruction data for `amount`.
    pub fn serialize_to_vec(amount: u64) -> (r: Vec<u8>)
        ensures
            r@ == param_bytes(10, amount),
    {
        let param = BorrowParam { instruction: 10, amount };
        param_to_vec(param.instruction, param.amount)
    }
}

/// Parameters of a repay instruction.
#[derive(Clone, Copy, Debug, PartialEq, Eq)]
pub struct RepayParam {
    instruction: u8,
    amount: u64,
}

impl RepayParam {
    /// The instruction data for `amount`.
    pub fn serialize_to_vec(amount: u64) -> (r: Vec<u8>)
        ensures
            r@ == param_bytes(11, amount),
    {
        let param = RepayParam { instruction: 11, amount };
        param_to_vec(param.instruction, param.amount)
    }
}

/// An account meta as a value: address, signer, writable.
pub open spec fn meta(pubkey: Pubkey, is_signer: bool, is_writable: bool) -> AccountMeta {
    AccountMeta { pubkey, is_signer, is_writable }
}

/// The instruction that updates a lending pool.
pub fn update(lending_program_id: &Pubkey, lending_pool_info: &Pubkey) -> (r: Instruction)
    ensures
        r.program_id == *lending_program_id,
        r.accounts@ == seq![meta(*lending_pool_info, false, true)],
        r.data@ == seq![17u8],
{
    let mut data: Vec<u8> = Vec::new();
    data.push(17);
    let accounts = vec![AccountMeta::new(*lending_pool_info, false)];
    Instruction { program_id: *lending_program_id, accounts, data }
}

/// The accounts of a call on a pool: the `writable` accounts, then, read only, the market
/// authority, the signing authority, the clock and the token program.
pub open spec fn pool_call_accounts(
    writable: Seq<Pubkey>,
    market_authority: Pubkey,
    signer: Pubkey,
    clock: Pubkey,
    token_program: Pubkey,
) -> Seq<AccountMeta> {
    writable.map_values(|k: Pubkey| meta(k, false, true)) + seq![
        meta(market_authority, false, false),
        meta(signer, true, false),
        meta(clock, false, false),
        meta(token_program, false, false),
    ]
}

/// Builds the accounts of `pool_call_accounts`.
fn pool_call_accounts_vec(
    writable: &Vec<Pubkey>,
    market_authority: &Pubkey,
    signer: &Pubkey,
    clock: &Pubkey,
    token_program: &Pubkey,
) -> (r: Vec<AccountMeta>)
    ensures
        r@ == pool_call_accounts(writable@, *market_authority, *signer, *clock, *token_program),
{
    let mut r: Vec<AccountMeta> = Vec::new();
    let mut i: usize = 0;
    while i < writable.len()
        invariant
            i <= writable@.len(),
            r@ == writable@.subrange(0, i as int).map_values(|k: Pubkey| meta(k, false, true)),
        decreases writable@.len() - i,
    {
        r.push(AccountMeta::new(writable[i], false));
        assert(writable@.subrange(0, i + 1).map_values(|k: Pubkey| meta(k, false, true)) =~= r@);
        i = i + 1;
    }
    assert(writable@.subrange(0, writable@.len() as int) =~= writable@);
    r.push(AccountMeta::new_readonly(*market_authority, false));
    r.push(AccountMeta::new_readonly(*signer, true));
    r.push(AccountMeta::new_readonly(*clock, false));
    r.push(AccountMeta::new_readonly(*token_program, false));
    assert(r@ =~= pool_call_accounts(
        writable@,
        *market_authority,
        *signer,
        *clock,
        *token_program,
    ));
    r
}

/// Deposits `amount` of liquidity into a pool; the token program must be the token program.
pub fn deposit(
    lending_program_id: &Pubkey,
    user_liquidity_token_account: &Pubkey,
    user_share_token_account: &Pubkey,
    lending_pool_info: &Pubkey,
    pool_liquidity_token_account: &Pubkey,
    share_token_mint: &Pubkey,
    lending_market_info: &Pubkey,
    lending_market_authority: &Pubkey,
    user_transfer_authority: &Pubkey,
    sysvar_clock: &Pubkey,
    token_program_id: &Pubkey,
    amount: u64,
) -> (r: Instruction)
    requires
        token_program_id.0@ == spl_token_id_bytes(),
    ensures
        r.program_id == *lending_program_id,
        r.accounts@ == pool_call_accounts(
            seq![
                *user_liquidity_token_account,
                *user_share_token_account,
                *lending_pool_info,
                *pool_liquidity_token_account,
                *share_token_mint,
                *lending_market_info,
            ],
            *lending_market_authority,
            *user_transfer_authority,
            *sysvar_clock,
            *token_program_id,
        ),
        r.data@ == param_bytes(4, amount),
{
    let data = DepositParam::serialize_to_vec(amount);
    let writable = vec![
        *user_liquidity_token_account,
        *user_share_token_account,
        *lending_pool_info,
        *pool_liquidity_token_account,
        *share_token_mint,
        *lending_market_info,
    ];
    assert(writable@ =~= seq![
        *user_liquidity_token_account,
        *user_share_token_account,
        *lending_pool_info,
        *pool_liquidity_token_account,
        *share_token_mint,
        *lending_market_info,
    ]);
    let accounts = pool_call_accounts_vec(
        &writable,
        lending_market_authority,
        user_transfer_authority,
        sysvar_clock,
        token_program_id,
    );
    Instruction { program_id: *lending_program_id, accounts, data }
}

/// Redeems `amount` of shares for liquidity; the token program must be the token program.
pub fn withdraw(
    lending_program_id: &Pubkey,
    user_share_token_account: &Pubkey,
    user_liquidity_token_account: &Pubkey,
    lending_pool_info: &Pubkey,
    share_token_mint: &Pubkey,
    pool_liquidity_token_account: &Pubkey,
    lending_market_info: &Pubkey,
    lending_market_authority: &Pubkey,
    user_transfer_authority: &Pubkey,
    sysvar_clock: &Pubkey,
    token_program_id: &Pubkey,
    amount: u64,
) -> (r: Instruction)
    requires
        token_program_id.0@ == spl_token_id_bytes(),
    ensures
        r.program_id == *lending_program_id,
        r.accounts@ == pool_call_accounts(
            seq![
                *user_share_token_account,
                *user_liquidity_token_account,
                *lending_pool_info,
                *share_token_mint,
                *pool_liquidity_token_account,
                *lending_market_info,
            ],
            *lending_market_authority,
            *user_transfer_authority,
            *sysvar_clock,
            *token_program_id,
        ),
        r.data@ == param_bytes(5, amount),
{
    let data = WithdrawParam::serialize_to_vec(amount);
    let writable = vec![
        *user_share_token_account,
        *user_liquidity_token_account,
        *lending_pool_info,
        *share_token_mint,
        *pool_liquidity_token_account,
        *lending_market_info,
    ];
    assert(writable@ =~= seq![
        *user_share_token_account,
        *user_liquidity_token_account,
        *lending_pool_info,
        *share_token_mint,
        *pool_liquidity_token_account,
        *lending_market_info,
    ]);
    let accounts = pool_call_accounts_vec(
        &writable,
        lending_market_authority,
        user_transfer_authority,
        sysvar_clock,
        token_program_id,
    );
    Instruction { program_id: *lending_program_id, accounts, data }
}

/// Redeems shares for `amount` of liquidity; the token program must be the token program.
pub fn withdraw2(
    lending_program_id: &Pubkey,
    user_share_token_account: &Pubkey,
    user_liquidity_token_account: &Pubkey,
    lending_pool_info: &Pubkey,
    share_token_mint: &Pubkey,
    pool_liquidity_token_account: &Pubkey,
    lending_market_info: &Pubkey,
    lending_market_authority: &Pubkey,
    user_transfer_authority: &Pubkey,
    sysvar_clock: &Pubkey,
    token_program_id: &Pubkey,
    amount: u64,
) -> (r: Instruction)
    requires
        token_program_id.0@ == spl_token_id_bytes(),
    ensures
        r.program_id == *lending_program_id,
        r.accounts@ == pool_call_accounts(
            seq![
                *user_share_token_account,
                *user_liquidity_token_account,
                *lending_pool_info,
                *share_token_mint,
                *pool_liquidity_token_account,
                *lending_market_info,
            ],
            *lending_market_authority,
            *user_transfer_authority,
            *sysvar_clock,
            *token_program_id,
        ),
        r.data@ == param_bytes(6, amount),
{
    let data = WithdrawParam2::serialize_to_vec(amount);
    let writable = vec![
        *user_share_token_account,
        *user_liquidity_token_account,
        *lending_pool_info,
        *share_token_mint,
        *pool_liquidity_token_account,
        *lending_market_info,
    ];
    assert(writable@ =~= seq![
        *user_share_token_account,
        *user_liquidity_token_account,
        *lending_pool_info,
        *share_token_mint,
        *pool_liquidity_token_account,
        *lending_market_info,
    ]);
    let accounts = pool_call_accounts_vec(
        &writable,
        lending_market_authority,
        user_transfer_authority,
        sysvar_clock,
        token_program_id,
    );
    Instruction { program_id: *lending_program_id, accounts, data }
}

/// Borrows `amount` of liquidity from a pool for a strategy that holds credit.
pub fn borrow(
    lending_program_id: &Pubkey,
    lending_pool_tkn_account: &Pubkey,
    strategy_tkn_account: &Pubkey,
    strategy_credit_account: &Pubkey,
    lending_pool_credit_account: &Pubkey,
    lending_pool_info_account: &Pubkey,
    lending_market_account: &Pubkey,
    lending_market_authority_info: &Pubkey,
    strategy_authority_account: &Pubkey,
    system_clock_info: &Pubkey,
    token_program_id: &Pubkey,
    amount: u64,
) -> (r: Instruction)
    ensures
        r.program_id == *lending_program_id,
        r.accounts@ == pool_call_accounts(
            seq![
                *lending_pool_tkn_account,
                *strategy_tkn_account,
                *strategy_credit_account,
                *lending_pool_credit_account,
                *lending_pool_info_account,
                *lending_market_account,
            ],
            *lending_market_authority_info,
            *strategy_authority_account,
            *system_clock_info,
            *token_program_id,
        ),
        r.data@ == param_bytes(10, amount),
{
    let data = BorrowParam::serialize_to_vec(amount);
    let writable = vec![
        *lending_pool_tkn_account,
        *strategy_tkn_account,
        *strategy_credit_account,
        *lending_pool_credit_account,
        *lending_pool_info_account,
        *lending_market_account,
    ];
    assert(writable@ =~= seq![
        *lending_pool_tkn_account,
        *strategy_tkn_account,
        *strategy_credit_account,
        *lending_pool_credit_account,
        *lending_pool_info_account,
        *lending_market_account,
    ]);
    let accounts = pool_call_accounts_vec(
        &writable,
        lending_market_authority_info,
        strategy_authority_account,
        system_clock_info,
        token_program_id,
    );
    Instruction { program_id: *lending_program_id, accounts, data }
}

/// Repays `amount` of liquidity to a pool.
pub fn repay(
    lending_program_id: &Pubkey,
    strategy_tkn_account: &Pubkey,
    lending_pool_tkn_account: &Pubkey,
    strategy_credit_account: &Pubkey,
    lending_pool_credit_mint: &Pubkey,
    lending_pool_credit_account: &Pubkey,
    lending_pool_info_account: &Pubkey,
    lending_market_info: &Pubkey,
    lending_market_authority_info: &Pubkey,
    strategy_authority_info: &Pubkey,
    system_clock_info: &Pubkey,
    token_program_id: &Pubkey,
    amount: u64,
) -> (r: Instruction)
    ensures
        r.program_id == *lending_program_id,
        r.accounts@ == pool_call_accounts(
            seq![
                *strategy_tkn_account,
                *lending_pool_tkn_account,
                *strategy_credit_account,
                *lending_pool_credit_mint,
                *lending_pool_credit_account,
                *lending_pool_info_account,
                *lending_market_info,
            ],
            *lending_market_authority_info,
            *strategy_authority_info,
            *system_clock_info,
            *token_program_id,
        ),
        r.data@ == param_bytes(11, amount),
{
    let data = RepayParam::serialize_to_vec(amount);
    let writable = vec![
        *strategy_tkn_account,
        *lending_pool_tkn_account,
        *strategy_credit_account,
        *lending_pool_credit_mint,
        *lending_pool_credit_account,
        *lending_pool_info_account,
        *lending_market_info,
    ];
    assert(writable@ =~= seq![
        *strategy_tkn_account,
        *lending_pool_tkn_account,
        *strategy_credit_account,
        *lending_pool_credit_mint,
        *lending_pool_credit_account,
        *lending_pool_info_account,
        *lending_market_info,
    ]);
    let accounts = pool_call_accounts_vec(
        &writable,
        lending_market_authority_info,
        strategy_authority_info,
        system_clock_info,
        token_program_id,
    );
    Instruction { program_id: *lending_program_id, accounts, data }
}

/// Whether an address is the token program's.
pub fn is_token_program(key: &Pubkey) -> (r: bool)
    ensures
        r == (key.0@ == spl_token_id_bytes()),
{
    let token = spl_token_id();
    same_pubkey(&token, key)
}

} // verus!
