//! The fair-exchange protocol: a seller trades a notarized signature for
//! payment, atomically and without an escrow.
//!
//! Five sequential role steps: the notary signs the agreed message; the
//! seller samples a fresh instance (w, x), binds x to the notary's
//! signature in a disjunctive proof and sends statement and proof; the
//! buyer verifies, signs the lock transaction and pre-signs the pay
//! transaction against x; the seller pre-verifies, adapts with w and
//! publishes the pay signature to claim payment; the buyer extracts w
//! from the published signature and the retained pre-signature. The same
//! disclosure that authorizes payment reveals the purchased witness:
//! fairness is algebraic, not institutional. Any failing verification
//! aborts the run before value moves.

use vstd::prelude::*;
use crate::error::Error;
use crate::field::{fadd, fmul, fsub, group_order};
use crate::group::{point_log, point_mul, scalar_val};
use crate::hard_relation::dlog_gen;
use crate::por_schnorr_signature::{
    crs_ok, por_crs_gen, por_prove, por_verify, stmt_accepts, Crs, Proof, Statement, Witness,
};
use crate::schnorr_adaptor_signatures::{
    adaptor_adapt, adaptor_extract, adaptor_gen, adaptor_pre_sign, adaptor_pre_verify,
    adaptor_pre_verifies, adaptor_verifies, adaptor_verify, lemma_adapt_verifies,
    lemma_extract_recovers,
};
use crate::schnorr_signatures::{
    schnorr_keypair, schnorr_sign, schnorr_verifies, schnorr_verify, SchnorrSignature,
};

verus! {

/// Everything a finished run leaves behind: the messages the roles
/// exchanged and the witness the buyer extracted.
pub struct ExchangeRun {
    pub crs: Crs,
    pub pk_notary: k256::ProjectivePoint,
    pub pk_b1: k256::ProjectivePoint,
    pub pk_b2: k256::ProjectivePoint,
    pub notary_signature: SchnorrSignature,
    pub statement: Statement,
    pub or_proof: Proof,
    pub lock_signature: SchnorrSignature,
    pub pre_signature: SchnorrSignature,
    pub pay_signature: SchnorrSignature,
    pub extracted: k256::Scalar,
}

/// Seller, first step: sample a fresh (w, x), bind x to the notary's
/// signature on msg, and prove the disjunction. Returns the witness the
/// seller retains together with the statement and proof sent to the
/// buyer; the proof always verifies.
pub fn seller_offer(
    crs: &Crs,
    pk_notary: &k256::ProjectivePoint,
    notary_sig: &SchnorrSignature,
    msg: &str,
) -> (r: (k256::Scalar, Statement, Proof))
    requires
        crs_ok(crs),
        schnorr_verifies(
            point_log(*pk_notary),
            msg@,
            scalar_val(notary_sig.challenge),
            scalar_val(notary_sig.sig),
        ),
    ensures
        1 <= scalar_val(r.0) < group_order(),
        point_log(r.1.x) == fmul(1, scalar_val(r.0)),
        r.1.pk == *pk_notary,
        r.1.msg@ == msg@,
        stmt_accepts(crs, &r.1, &r.2),
{
    let (w, x) = dlog_gen(&crs.g);
    let gs = point_mul(&crs.g, &notary_sig.sig);
    let witness = Witness::new(notary_sig.sig, w);
    let statement = Statement::new(x, *pk_notary, gs, notary_sig.challenge, msg.to_owned());
    let or_proof = por_prove(crs, &statement, &witness);
    (w, statement, or_proof)
}

/// Buyer, first step: verify the seller's proof; on success sign the
/// lock transaction (to be published) and pre-sign the pay transaction
/// against the statement's x. Aborts with `VerificationFailure` exactly
/// when the proof is rejected.
pub fn buyer_lock_and_presign(
    crs: &Crs,
    statement: &Statement,
    or_proof: &Proof,
    sk_b1: &k256::Scalar,
    pk_b1: &k256::ProjectivePoint,
    sk_b2: &k256::Scalar,
    tx_lock: &str,
    tx_pay: &str,
) -> (r: Result<(SchnorrSignature, SchnorrSignature), Error>)
    requires
        schnorr_keypair(scalar_val(*sk_b1), point_log(*pk_b1)),
    ensures
        r is Ok <==> stmt_accepts(crs, statement, or_proof),
        r matches Ok(sigs) ==> schnorr_verifies(
            point_log(*pk_b1),
            tx_lock@,
            scalar_val(sigs.0.challenge),
            scalar_val(sigs.0.sig),
        ),
        r matches Ok(sigs) ==> adaptor_pre_verifies(
            fmul(1, scalar_val(*sk_b2)),
            tx_pay@,
            point_log(statement.x),
            scalar_val(sigs.1.challenge),
            scalar_val(sigs.1.sig),
        ),
        r matches Err(e) ==> e == Error::VerificationFailure,
{
    if !por_verify(crs, statement, or_proof) {
        return Err(Error::VerificationFailure);
    }
    let lock_signature = schnorr_sign(sk_b1, tx_lock);
    if !schnorr_verify(pk_b1, tx_lock, &lock_signature) {
        return Err(Error::VerificationFailure);
    }
    let pre_signature = adaptor_pre_sign(sk_b2, tx_pay, &statement.x);
    Ok((lock_signature, pre_signature))
}

/// Seller, second step: pre-verify the buyer's pre-signature against x,
/// adapt it with the retained witness w and publish the result to claim
/// payment. Aborts with `VerificationFailure` exactly when the
/// pre-signature is rejected.
pub fn seller_claim(
    pk_b2: &k256::ProjectivePoint,
    tx_pay: &str,
    x: &k256::ProjectivePoint,
    pre_signature: &SchnorrSignature,
    w: &k256::Scalar,
) -> (r: Result<SchnorrSignature, Error>)
    requires
        point_log(*x) == fmul(1, scalar_val(*w)),
    ensures
        r is Ok <==> adaptor_pre_verifies(
            point_log(*pk_b2),
            tx_pay@,
            point_log(*x),
            scalar_val(pre_signature.challenge),
            scalar_val(pre_signature.sig),
        ),
        r matches Ok(sig) ==> adaptor_verifies(
            point_log(*pk_b2),
            tx_pay@,
            scalar_val(sig.challenge),
            scalar_val(sig.sig),
        ),
        r matches Ok(sig) ==> scalar_val(sig.sig) == fadd(
            scalar_val(pre_signature.sig),
            scalar_val(*w),
        ),
        r matches Err(e) ==> e == Error::VerificationFailure,
{
    if !adaptor_pre_verify(pk_b2, tx_pay, x, pre_signature) {
        return Err(Error::VerificationFailure);
    }
    let pay_signature = adaptor_adapt(pk_b2, pre_signature, w);
    proof {
        lemma_adapt_verifies(
            point_log(*pk_b2),
            tx_pay@,
            point_log(*x),
            scalar_val(pre_signature.challenge),
            scalar_val(pre_signature.sig),
            scalar_val(*w),
        );
    }
    if !adaptor_verify(pk_b2, tx_pay, &pay_signature) {
        return Err(Error::VerificationFailure);
    }
    Ok(pay_signature)
}

/// Buyer, second step: read the published pay signature and extract the
/// witness from it and the retained pre-signature. Aborts with
/// `ExtractionFailure` exactly when the responses do not differ, that is,
/// when no adaptation happened.
pub fn buyer_extract(
    pk_b2: &k256::ProjectivePoint,
    pre_signature: &SchnorrSignature,
    pay_signature: &SchnorrSignature,
) -> (r: Result<k256::Scalar, Error>)
    ensures
        match r {
            Ok(w) => scalar_val(w) == fsub(
                scalar_val(pay_signature.sig),
                scalar_val(pre_signature.sig),
            ) && scalar_val(w) != 0,
            Err(e) => e == Error::ExtractionFailure && fsub(
                scalar_val(pay_signature.sig),
                scalar_val(pre_signature.sig),
            ) == 0,
        },
{
    match adaptor_extract(pk_b2, pre_signature, pay_signature) {
        Some(w) => Ok(w),
        None => Err(Error::ExtractionFailure),
    }
}

/// One complete run of the protocol with honest parties and fresh keys:
/// notary, seller and buyer in sequence. Only the reference-string setup
/// can abort — every later verification is proven to succeed — and a
/// finished run satisfies the fairness equation: the witness the buyer
/// extracts is exactly the discrete logarithm of the statement the
/// seller sold, g^w' == x.
pub fn selling_signature(msg: &str, tx_lock: &str, tx_pay: &str) -> (r: Result<
    ExchangeRun,
    Error,
>)
    ensures
        r matches Ok(run) ==> {
            &&& point_log(run.statement.x) == fmul(1, scalar_val(run.extracted))
            &&& scalar_val(run.extracted) != 0
            &&& stmt_accepts(&run.crs, &run.statement, &run.or_proof)
            &&& schnorr_verifies(
                point_log(run.pk_notary),
                msg@,
                scalar_val(run.notary_signature.challenge),
                scalar_val(run.notary_signature.sig),
            )
            &&& schnorr_verifies(
                point_log(run.pk_b1),
                tx_lock@,
                scalar_val(run.lock_signature.challenge),
                scalar_val(run.lock_signature.sig),
            )
            &&& adaptor_pre_verifies(
                point_log(run.pk_b2),
                tx_pay@,
                point_log(run.statement.x),
                scalar_val(run.pre_signature.challenge),
                scalar_val(run.pre_signature.sig),
            )
            &&& adaptor_verifies(
                point_log(run.pk_b2),
                tx_pay@,
                scalar_val(run.pay_signature.challenge),
                scalar_val(run.pay_signature.sig),
            )
        },
        r matches Err(e) ==> e == Error::ConstructionInvariantViolation,
{
    let crs = match por_crs_gen() {
        Ok(crs) => crs,
        Err(e) => {
            return Err(e);
        },
    };
    let (sk_b1, pk_b1) = adaptor_gen();
    let (sk_b2, pk_b2) = adaptor_gen();
    let (sk_notary, pk_notary) = adaptor_gen();

    // Notary: the trust anchor signs the agreed message.
    let notary_sig = schnorr_sign(&sk_notary, msg);

    // Seller, first step.
    let (w, statement, or_proof) = seller_offer(&crs, &pk_notary, &notary_sig, msg);

    // Buyer, first step.
    let (lock_signature, pre_signature) = match buyer_lock_and_presign(
        &crs,
        &statement,
        &or_proof,
        &sk_b1,
        &pk_b1,
        &sk_b2,
        tx_lock,
        tx_pay,
    ) {
        Ok(sigs) => sigs,
        Err(e) => {
            return Err(e);
        },
    };

    // Seller, second step: claim payment by publishing the adapted
    // signature.
    let pay_signature = match seller_claim(&pk_b2, tx_pay, &statement.x, &pre_signature, &w) {
        Ok(sig) => sig,
        Err(e) => {
            return Err(e);
        },
    };

    // Buyer, second step: the published signature discloses the witness.
    proof {
        lemma_extract_recovers(scalar_val(pre_signature.sig), scalar_val(w));
    }
    let extracted = match buyer_extract(&pk_b2, &pre_signature, &pay_signature) {
        Ok(w) => w,
        Err(e) => {
            return Err(e);
        },
    };

    Ok(ExchangeRun {
        crs,
        pk_notary,
        pk_b1,
        pk_b2,
        notary_signature: notary_sig,
        statement,
        or_proof,
        lock_signature,
        pre_signature,
        pay_signature,
        extracted,
    })
}

} // verus!
