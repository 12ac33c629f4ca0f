use vstd::prelude::*;
use crate::amount::Amount;
use crate::codec::{balance_of_request, balance_request, be_nat, decode_balance, reply_decodes};
use crate::conversion::{ConversionError, shares_for, to_shares};
use crate::identity::Identity;

verus! {

/// Why an operation of the vault failed.
#[derive(Debug, PartialEq, Eq)]
pub enum VaultError {
    /// The vault is already bound to an asset.
    AlreadyInitialized,
    /// The vault is bound to no asset yet, so there is nothing to query.
    Uninitialized,
    /// The asset contract failed the call; its failure payload, unchanged.
    ExternalCall(Vec<u8>),
    /// The asset contract's reply is not one ABI-encoded `uint256`.
    Decode(String),
    /// The total of assets is zero.
    DivisionByZero,
    /// An intermediate product does not fit in 256 bits.
    ArithmeticOverflow,
}

/// The abstract state of a vault.
pub struct VaultState {
    /// The asset contract the vault is bound to; all zero while unbound.
    pub asset: Identity,
    pub total_shares: nat,
    pub total_assets: nat,
}

/// The accounting state of a vault: the asset it is bound to and its
/// totals of shares and assets. All changes go through its methods.
pub struct Vault {
    asset: Identity,
    total_shares: Amount,
    total_assets: Amount,
}

impl View for Vault {
    type V = VaultState;

    closed spec fn view(&self) -> VaultState {
        VaultState {
            asset: self.asset,
            total_shares: self.total_shares@,
            total_assets: self.total_assets@,
        }
    }
}

/// The vault error that stands for a conversion error.
pub open spec fn conversion_failure(e: ConversionError) -> VaultError {
    match e {
        ConversionError::DivisionByZero => VaultError::DivisionByZero,
        ConversionError::ArithmeticOverflow => VaultError::ArithmeticOverflow,
    }
}

/// What `initialize(asset)` does to a vault in state `pre`: an unbound vault
/// becomes bound to `asset`; a bound one fails and stays as it was.
pub open spec fn initializes(
    pre: VaultState,
    asset: Identity,
    post: VaultState,
    r: Result<(), VaultError>,
) -> bool {
    if pre.asset.is_unset() {
        &&& r is Ok
        &&& post == VaultState { asset, total_shares: pre.total_shares, total_assets: pre.total_assets }
    } else {
        &&& r == Err::<(), VaultError>(VaultError::AlreadyInitialized)
        &&& post == pre
    }
}

/// Whether `r` is what the vault reports for the asset contract's `reply`:
/// a failed call passes its payload on unchanged, a 32-byte reply gives the
/// amount it spells, and any other reply is a decode error.
pub open spec fn answers(reply: Result<Vec<u8>, Vec<u8>>, r: Result<Amount, VaultError>) -> bool {
    match reply {
        Err(e) => r == Err::<Amount, VaultError>(VaultError::ExternalCall(e)),
        Ok(data) => if reply_decodes(data@) {
            r is Ok && r->Ok_0@ == be_nat(data@)
        } else {
            r is Err && r->Err_0 is Decode
        },
    }
}

/// What querying the asset contract `asset` for the balance of `of` yields,
/// where `invoke` makes the call: the balance query for `of` is sent to
/// `asset` and its reply is reported.
pub open spec fn queries_balance<F: FnOnce(Identity, Vec<u8>) -> Result<Vec<u8>, Vec<u8>>>(
    asset: Identity,
    of: Identity,
    invoke: F,
    r: Result<Amount, VaultError>,
) -> bool {
    exists|data: Vec<u8>, reply: Result<Vec<u8>, Vec<u8>>|
        #[trigger] invoke.ensures((asset, data), reply) && data@ == balance_request(of) && answers(
            reply,
            r,
        )
}

/// What reading the total of assets yields for a vault in `state` whose own
/// identity is `me`, where `invoke` calls the asset contract: an unbound
/// vault fails at once; a bound one sends the balance query for `me` to its
/// asset contract and reports the reply.
pub open spec fn reads_total_assets<F: FnOnce(Identity, Vec<u8>) -> Result<Vec<u8>, Vec<u8>>>(
    state: VaultState,
    me: Identity,
    invoke: F,
    r: Result<Amount, VaultError>,
) -> bool {
    if state.asset.is_unset() {
        r == Err::<Amount, VaultError>(VaultError::Uninitialized)
    } else {
        queries_balance(state.asset, me, invoke, r)
    }
}

/// Turns the asset contract's reply to a balance query into the vault's
/// answer.
pub fn settle_balance_reply(reply: Result<Vec<u8>, Vec<u8>>) -> (r: Result<Amount, VaultError>)
    ensures
        answers(reply, r),
{
    match reply {
        Err(e) => Err(VaultError::ExternalCall(e)),
        Ok(data) => match decode_balance(&data) {
            Ok(v) => Ok(v),
            Err(msg) => Err(VaultError::Decode(msg)),
        },
    }
}

/// Asks the asset contract `asset` for the balance of `of`. `invoke(to,
/// payload)` makes the synchronous call to contract `to` and gives its reply
/// or its failure payload.
pub fn query_balance<F: FnOnce(Identity, Vec<u8>) -> Result<Vec<u8>, Vec<u8>>>(
    asset: Identity,
    of: Identity,
    invoke: F,
) -> (r: Result<Amount, VaultError>)
    requires
        forall|to: Identity, data: Vec<u8>| #[trigger] invoke.requires((to, data)),
    ensures
        queries_balance(asset, of, invoke, r),
{
    let request = balance_of_request(of);
    let reply = invoke(asset, request);
    settle_balance_reply(reply)
}

impl Vault {
    /// A vault bound to no asset, with no shares and no assets.
    pub fn new() -> (r: Vault)
        ensures
            r@.asset.is_unset(),
            r@.total_shares == 0,
            r@.total_assets == 0,
    {
        Vault { asset: Identity::zero(), total_shares: Amount::zero(), total_assets: Amount::zero() }
    }

    /// A vault in the given state, as held in storage.
    pub fn from_parts(asset: Identity, total_shares: Amount, total_assets: Amount) -> (r: Vault)
        ensures
            r@ == (VaultState { asset, total_shares: total_shares@, total_assets: total_assets@ }),
    {
        Vault { asset, total_shares, total_assets }
    }

    /// The asset contract the vault is bound to; all zero while unbound.
    pub fn asset(&self) -> (r: Identity)
        ensures
            r == self@.asset,
    {
        self.asset
    }

    pub fn total_shares(&self) -> (r: Amount)
        ensures
            r@ == self@.total_shares,
    {
        self.total_shares
    }

    /// The total of assets as last recorded by the vault.
    pub fn recorded_total_assets(&self) -> (r: Amount)
        ensures
            r@ == self@.total_assets,
    {
        self.total_assets
    }

    /// Binds the vault to the asset contract `asset`. Fails with
    /// `AlreadyInitialized`, changing nothing, where it is already bound.
    pub fn initialize(&mut self, asset: Identity) -> (r: Result<(), VaultError>)
        ensures
            initializes(old(self)@, asset, final(self)@, r),
    {
        if self.asset.is_zero() {
            self.asset = asset;
            Ok(())
        } else {
            Err(VaultError::AlreadyInitialized)
        }
    }

    /// Converts `assets` to shares at the vault's current rate, rounding
    /// down. Fails with `DivisionByZero` on an empty vault.
    pub fn convert_to_shares(&self, assets: Amount) -> (r: Result<Amount, VaultError>)
        ensures
            match shares_for(assets@, self@.total_shares, self@.total_assets) {
                Ok(v) => r is Ok && r->Ok_0@ == v,
                Err(e) => r == Err::<Amount, VaultError>(conversion_failure(e)),
            },
    {
        match to_shares(assets, self.total_shares, self.total_assets) {
            Ok(v) => Ok(v),
            Err(ConversionError::DivisionByZero) => Err(VaultError::DivisionByZero),
            Err(ConversionError::ArithmeticOverflow) => Err(VaultError::ArithmeticOverflow),
        }
    }

    /// The amount of the asset that the vault, whose own identity is `me`,
    /// holds, as its asset contract reports it. `invoke(to, payload)` makes
    /// the synchronous call to contract `to` and gives its reply or its
    /// failure payload.
    pub fn total_assets<F: FnOnce(Identity, Vec<u8>) -> Result<Vec<u8>, Vec<u8>>>(
        &self,
        me: Identity,
        invoke: F,
    ) -> (r: Result<Amount, VaultError>)
        requires
            forall|to: Identity, data: Vec<u8>| #[trigger] invoke.requires((to, data)),
        ensures
            reads_total_assets(self@, me, invoke, r),
    {
        if self.asset.is_zero() {
            return Err(VaultError::Uninitialized);
        }
        query_balance(self.asset, me, invoke)
    }
}

/// Whether two readings of the total of assets agree: the same amount, or
/// the same error (a decode error of either description).
pub open spec fn same_reading(r1: Result<Amount, VaultError>, r2: Result<Amount, VaultError>) -> bool {
    match (r1, r2) {
        (Ok(a), Ok(b)) => a@ == b@,
        (Err(VaultError::Decode(_)), Err(VaultError::Decode(_))) => true,
        (Err(e1), Err(e2)) => e1 == e2,
        _ => false,
    }
}

/// For every non-zero identity `a`: initializing an unbound vault with `a`
/// succeeds and binds it to `a`; initializing it again, with any identity
/// `b` (`a` included), fails with `AlreadyInitialized` and leaves it bound
/// to `a`.
pub proof fn lemma_single_initialization(
    v0: VaultState,
    a: Identity,
    v1: VaultState,
    r1: Result<(), VaultError>,
    b: Identity,
    v2: VaultState,
    r2: Result<(), VaultError>,
)
    requires
        v0.asset.is_unset(),
        !a.is_unset(),
        initializes(v0, a, v1, r1),
        initializes(v1, b, v2, r2),
    ensures
        r1 is Ok,
        v1.asset == a,
        r2 == Err::<(), VaultError>(VaultError::AlreadyInitialized),
        v2 == v1,
        v2.asset == a,
{
}

/// Where every call of the asset contract fails with payload `e`, reading the
/// total of assets of a bound vault fails with `ExternalCall` carrying `e`
/// unchanged.
pub proof fn lemma_external_failure_propagates<F: FnOnce(Identity, Vec<u8>) -> Result<Vec<u8>, Vec<u8>>>(
    state: VaultState,
    me: Identity,
    invoke: F,
    e: Vec<u8>,
    r: Result<Amount, VaultError>,
)
    requires
        !state.asset.is_unset(),
        forall|to: Identity, data: Vec<u8>, reply: Result<Vec<u8>, Vec<u8>>|
            #[trigger] invoke.ensures((to, data), reply) ==> reply == Err::<Vec<u8>, Vec<u8>>(e),
        reads_total_assets(state, me, invoke, r),
    ensures
        r == Err::<Amount, VaultError>(VaultError::ExternalCall(e)),
{
}

/// Where every reply of the asset contract succeeds with data that is not
/// exactly one 32-byte word, reading the total of assets of a bound vault
/// fails with a decode error and gives no amount.
pub proof fn lemma_malformed_reply_rejected<F: FnOnce(Identity, Vec<u8>) -> Result<Vec<u8>, Vec<u8>>>(
    state: VaultState,
    me: Identity,
    invoke: F,
    r: Result<Amount, VaultError>,
)
    requires
        !state.asset.is_unset(),
        forall|to: Identity, data: Vec<u8>, reply: Result<Vec<u8>, Vec<u8>>|
            #[trigger] invoke.ensures((to, data), reply) ==> reply is Ok && !reply_decodes(
                reply->Ok_0@,
            ),
        reads_total_assets(state, me, invoke, r),
    ensures
        r is Err,
        r->Err_0 is Decode,
{
}

/// Two readings of the total of assets of the same vault, against an asset
/// contract whose reply to a query does not change between them, agree.
pub proof fn lemma_reads_agree<F: FnOnce(Identity, Vec<u8>) -> Result<Vec<u8>, Vec<u8>>>(
    state: VaultState,
    me: Identity,
    invoke: F,
    r1: Result<Amount, VaultError>,
    r2: Result<Amount, VaultError>,
)
    requires
        forall|to: Identity, d1: Vec<u8>, d2: Vec<u8>, y1: Result<Vec<u8>, Vec<u8>>, y2: Result<Vec<u8>, Vec<u8>>|
            #![trigger invoke.ensures((to, d1), y1), invoke.ensures((to, d2), y2)]
            d1@ == d2@ && invoke.ensures((to, d1), y1) && invoke.ensures((to, d2), y2) ==> y1 == y2,
        reads_total_assets(state, me, invoke, r1),
        reads_total_assets(state, me, invoke, r2),
    ensures
        same_reading(r1, r2),
{
    if !state.asset.is_unset() {
        let (d1, y1) = choose|data: Vec<u8>, reply: Result<Vec<u8>, Vec<u8>>|
            #[trigger] invoke.ensures((state.asset, data), reply) && data@ == balance_request(me)
                && answers(reply, r1);
        let (d2, y2) = choose|data: Vec<u8>, reply: Result<Vec<u8>, Vec<u8>>|
            #[trigger] invoke.ensures((state.asset, data), reply) && data@ == balance_request(me)
                && answers(reply, r2);
        assert(y1 == y2);
    }
}

} // verus!
