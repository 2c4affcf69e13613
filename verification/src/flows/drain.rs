//! Draining a DAO: the funds that customers paid to the DAO's application are split between
//! the DAO and the platform, whose part is a percentage of them.
use vstd::prelude::*;

use vstd::string::StringSliceAdditionalSpecFns;

use crate::amounts::{DaoAppId, FundsAmount, FundsAssetId, MicroAlgos};
use crate::capi::{CapiAddress, CapiAssetDaoDeps};
use crate::decimal::{
    checked_mul, dec_of, decimal_product, exact_product_fits, floor, floor_of, lemma_pow10_positive,
    lemma_same_floor, pow10, to_u64,
    u64_of, Decimal, MAX_MANTISSA,
};
use crate::error::Error;
use crate::shares::SharesPercentage;
use crate::text::text_bytes;
use crate::tx::{built, call_app, Address, OnComplete, TxParams, Txn, TxnTypeView, TxnView};

verus! {

/// The split of a drained amount: the DAO's part and the platform's fee.
#[derive(Debug, Clone, Copy, PartialEq, Eq, Structural)]
pub struct DaoAndCapiDrainAmounts {
    /// The part that goes to the DAO (the amount minus the fee).
    pub dao: FundsAmount,
    /// The part that goes to the platform (the fee).
    pub capi: FundsAmount,
}

impl DaoAndCapiDrainAmounts {
    /// There is something to drain where the DAO's part is not zero (the fee derives from it).
    pub fn has_something_to_drain(&self) -> (r: bool)
        ensures
            r == (self.dao.0 > 0),
    {
        self.dao.val() > 0
    }
}

/// The platform's fee of an amount: the decimal product of the amount and the percentage,
/// floored (as TEAL's integer division truncates), as a `u64`.
pub open spec fn capi_fee_of(amount: u64, percentage: Decimal) -> Option<u64> {
    match decimal_product(dec_of(amount), percentage) {
        Some(d) => u64_of(floor_of(d)),
        None => None,
    }
}

/// The split of an amount: the platform's fee, and the rest for the DAO; `None` where the fee
/// cannot be computed or exceeds the amount.
pub open spec fn drain_split(amount: u64, percentage: Decimal) -> Option<DaoAndCapiDrainAmounts> {
    match capi_fee_of(amount, percentage) {
        Some(c) => if c <= amount {
            Some(DaoAndCapiDrainAmounts { dao: FundsAmount((amount - c) as u64), capi: FundsAmount(c) })
        } else {
            None
        },
        None => None,
    }
}

/// Splits an amount to drain into the DAO's part and the platform's fee, a percentage of the
/// amount rounded down. Where the product is exact, the fee is `amount * p` floored; the two
/// parts always add up to the amount.
pub fn calculate_dao_and_capi_escrow_xfer_amounts(
    amount_to_drain: FundsAmount,
    capi_percentage: SharesPercentage,
) -> (r: Result<DaoAndCapiDrainAmounts, Error>)
    ensures
        r is Ok <==> drain_split(amount_to_drain.0, capi_percentage.dec()) is Some,
        r matches Ok(a) ==> drain_split(amount_to_drain.0, capi_percentage.dec()) == Some(a),
        r matches Ok(a) ==> a.dao.0 + a.capi.0 == amount_to_drain.0,
        r matches Err(e) ==> e == Error::DecimalConversion || e == Error::Underflow,
        exact_product_fits(dec_of(amount_to_drain.0), capi_percentage.dec()) ==> (r matches Ok(a)
            && a.capi.0 == (amount_to_drain.0 * capi_percentage.dec().num())
            / capi_percentage.dec().den()),
        capi_percentage.dec().mantissa == 0 ==> r == Ok::<DaoAndCapiDrainAmounts, Error>(
            DaoAndCapiDrainAmounts { dao: amount_to_drain, capi: FundsAmount(0) },
        ),
        amount_to_drain.0 == 0 ==> r == Ok::<DaoAndCapiDrainAmounts, Error>(
            DaoAndCapiDrainAmounts { dao: FundsAmount(0), capi: FundsAmount(0) },
        ),
{
    let p = capi_percentage.value();
    let amount = Decimal::from_u64(amount_to_drain.val());
    let product = match checked_mul(amount, p) {
        Some(d) => d,
        None => {
            return Err(Error::DecimalConversion);
        },
    };
    proof {
        assert(pow10(0) == 1);
        if amount_to_drain.0 == 0 || p.mantissa == 0 {
            assert(amount.num() * p.num() == 0) by (nonlinear_arith)
                requires
                    amount.num() == 0 || p.num() == 0,
            ;
            assert(product.num() == 0 && !product.negative);
        } else {
            assert(!p.negative);
        }
        if exact_product_fits(amount, p) || amount_to_drain.0 == 0 || p.mantissa == 0 {
            assert(amount.den() == 1);
            assert(product.num() * p.den() == amount_to_drain.0 * p.num() * product.den())
                by (nonlinear_arith)
                requires
                    product.num() * (amount.den() * p.den()) == amount.num() * p.num() * product.den()
                        || (product.num() == 0 && amount.num() * p.num() == 0),
                    amount.den() == 1,
                    amount.num() == amount_to_drain.0,
            ;
            lemma_exact_fee(amount_to_drain.0, p, product);
        }
    }
    let capi_fee = match to_u64(floor(product)) {
        Some(c) => c,
        None => {
            return Err(Error::DecimalConversion);
        },
    };
    match amount_to_drain.val().checked_sub(capi_fee) {
        Some(dao) => Ok(DaoAndCapiDrainAmounts { dao: FundsAmount::new(dao), capi: FundsAmount::new(capi_fee) }),
        None => Err(Error::Underflow),
    }
}

/// Where the product of an amount and a percentage is exact, its floor is `amount * p`
/// floored, which is at most the amount.
proof fn lemma_exact_fee(amount: u64, p: Decimal, d: Decimal)
    requires
        p.wf(),
        p.in_range(0, 1),
        d.wf(),
        !d.negative,
        d.num() * p.den() == amount * p.num() * d.den(),
    ensures
        u64_of(floor_of(d)) == Some(((amount * p.num()) / p.den()) as u64),
        0 <= (amount * p.num()) / p.den() <= amount,
{
    lemma_pow10_positive(p.scale as nat);
    let n = amount * p.num();
    let den = p.den();
    assert(0 <= n <= den * amount) by (nonlinear_arith)
        requires
            0 <= p.num() <= den,
            amount >= 0,
            n == amount * p.num(),
    ;
    assert(n / den <= amount) by (nonlinear_arith)
        requires
            0 <= n <= den * amount,
            den >= 1,
    ;
    assert(0 <= n / den) by (nonlinear_arith)
        requires
            0 <= n,
            den >= 1,
    ;
    assert(pow10(0) == 1);
    let r = floor_of(d);
    lemma_pow10_positive(d.scale as nat);
    lemma_same_floor(d.num(), d.den(), n, den);
    assert(r.den() == 1);
    assert(r.num() / 1 == r.num());
    assert(!r.negative);
    assert(r.trunc_value() == n / den);
}

/// The amounts to drain from what the DAO's application holds of the funds asset and what
/// of it is already available to the DAO (drained before): the difference, split by
/// `calculate_dao_and_capi_escrow_xfer_amounts`.
pub fn to_drain_amounts(
    dao_holdings: FundsAmount,
    available: FundsAmount,
    capi_percentage: SharesPercentage,
) -> (r: Result<DaoAndCapiDrainAmounts, Error>)
    ensures
        dao_holdings.0 < available.0 ==> r == Err::<DaoAndCapiDrainAmounts, Error>(
            Error::Underflow,
        ),
        dao_holdings.0 >= available.0 ==> (r is Ok <==> drain_split(
            (dao_holdings.0 - available.0) as u64,
            capi_percentage.dec(),
        ) is Some),
        r matches Ok(a) ==> drain_split((dao_holdings.0 - available.0) as u64, capi_percentage.dec())
            == Some(a),
        r matches Err(e) ==> e == Error::DecimalConversion || e == Error::Underflow,
        dao_holdings.0 == available.0 ==> r == Ok::<DaoAndCapiDrainAmounts, Error>(
            DaoAndCapiDrainAmounts { dao: FundsAmount(0), capi: FundsAmount(0) },
        ),
{
    let not_yet_drained = match dao_holdings.val().checked_sub(available.val()) {
        Some(v) => FundsAmount::new(v),
        None => {
            return Err(Error::Underflow);
        },
    };
    calculate_dao_and_capi_escrow_xfer_amounts(not_yet_drained, capi_percentage)
}

/// The drainer's call of the DAO's application: argument "drain", the funds asset as foreign
/// asset and the platform's address as account.
pub open spec fn drain_call_view(
    params: TxParams,
    app_id: u64,
    sender: Address,
    capi_address: Address,
    funds_asset_id: u64,
) -> TxnView {
    built(
        params,
        sender,
        TxnTypeView::ApplicationCall {
            app_id,
            on_complete: OnComplete::NoOp,
            app_arguments: Some(seq!["drain".spec_bytes()]),
            accounts: Some(seq![capi_address]),
            foreign_assets: Some(seq![funds_asset_id]),
        },
    )
}

/// The call of the DAO's application that drains it.
pub fn drain_app_call_tx(
    app_id: DaoAppId,
    params: &TxParams,
    sender: &Address,
    capi_address: &CapiAddress,
    funds_asset_id: FundsAssetId,
) -> (r: Result<Txn, Error>)
    requires
        params.wf(),
    ensures
        r matches Ok(tx) && tx@ == drain_call_view(
            *params,
            app_id.0,
            *sender,
            capi_address.0,
            funds_asset_id.0,
        ),
{
    let mut arguments: Vec<Vec<u8>> = Vec::new();
    arguments.push(text_bytes("drain"));
    let mut accounts: Vec<Address> = Vec::new();
    accounts.push(capi_address.0);
    let mut assets: Vec<u64> = Vec::new();
    assets.push(funds_asset_id.0);
    let tx = call_app(
        params,
        *sender,
        app_id.0,
        OnComplete::NoOp,
        Some(arguments),
        Some(accounts),
        Some(assets),
    );
    proof {
        assert(crate::tx::bytes_list(arguments) =~= seq!["drain".spec_bytes()]);
        assert(accounts@ =~= seq![capi_address.0]);
        assert(assets@ =~= seq![funds_asset_id.0]);
    }
    Ok(tx)
}

/// The transaction of a drain.
#[derive(Debug)]
pub struct DrainToSign {
    pub app_call_tx: Txn,
}

/// The drain of a DAO: the drainer's call of the application, with twice the minimum fee, to
/// pay also for the inner transfer of the platform's fee. The amounts are those the
/// application will transfer; they do not enter the call.
pub fn drain(
    drainer: &Address,
    app_id: DaoAppId,
    funds_asset_id: FundsAssetId,
    capi_deps: &CapiAssetDaoDeps,
    amounts: &DaoAndCapiDrainAmounts,
    params: &TxParams,
) -> (r: Result<DrainToSign, Error>)
    requires
        params.wf(),
        params.min_fee * 2 <= u64::MAX,
    ensures
        r matches Ok(d) && d.app_call_tx@ == drain_call_view(
            *params,
            app_id.0,
            *drainer,
            capi_deps.address.0,
            funds_asset_id.0,
        ).with_fee((params.min_fee * 2) as u64),
{
    let mut app_call_tx = drain_app_call_tx(app_id, params, drainer, &capi_deps.address, funds_asset_id)?;
    app_call_tx.fee = MicroAlgos(app_call_tx.fee.0 * 2);
    Ok(DrainToSign { app_call_tx })
}

} // verus!
