use vstd::prelude::*;

verus! {

/// How a client decides whether to accept the server's certificate chain.
/// Chosen once at startup.
#[derive(Clone, Copy, Debug, PartialEq, Eq, Structural)]
pub enum TrustPolicy {
    /// Full chain-of-trust, name and signature validation.
    Standard,
    /// DANGEROUS: accepts any chain without looking at it. Only for local
    /// testing against self-signed certificates; it gives no protection
    /// against an attacker on the path.
    InsecureSkipVerification,
}

/// Why a certificate chain was refused.
#[derive(Clone, Copy, Debug, PartialEq, Eq, Structural)]
pub enum CertRejection {
    UnknownIssuer,
    Expired,
    NameMismatch,
    BadSignature,
    /// Chain validation was required but did not take place.
    NotValidated,
    Other,
}

/// What standard chain validation found, if it was run.
#[derive(Clone, Copy, Debug, PartialEq, Eq, Structural)]
pub enum ChainCheck {
    NotRun,
    Valid,
    Invalid(CertRejection),
}

/// The decision on a peer's certificate chain.
#[derive(Clone, Copy, Debug, PartialEq, Eq, Structural)]
pub enum PeerVerdict {
    Accepted,
    Rejected(CertRejection),
}

pub open spec fn verdict_for(policy: TrustPolicy, check: ChainCheck) -> PeerVerdict {
    match policy {
        TrustPolicy::InsecureSkipVerification => PeerVerdict::Accepted,
        TrustPolicy::Standard => match check {
            ChainCheck::Valid => PeerVerdict::Accepted,
            ChainCheck::Invalid(reason) => PeerVerdict::Rejected(reason),
            ChainCheck::NotRun => PeerVerdict::Rejected(CertRejection::NotValidated),
        },
    }
}

/// Whether the policy needs the standard validator's result before it can
/// decide.
pub fn needs_chain_validation(policy: TrustPolicy) -> (r: bool)
    ensures
        r == (policy == TrustPolicy::Standard),
{
    match policy {
        TrustPolicy::Standard => true,
        TrustPolicy::InsecureSkipVerification => false,
    }
}

/// Decides on a peer's chain: the insecure policy accepts whatever was
/// presented; the standard policy accepts exactly the chains that
/// validation found valid.
pub fn peer_verdict(policy: TrustPolicy, check: ChainCheck) -> (r: PeerVerdict)
    ensures
        r == verdict_for(policy, check),
{
    match policy {
        TrustPolicy::InsecureSkipVerification => PeerVerdict::Accepted,
        TrustPolicy::Standard => match check {
            ChainCheck::Valid => PeerVerdict::Accepted,
            ChainCheck::Invalid(reason) => PeerVerdict::Rejected(reason),
            ChainCheck::NotRun => PeerVerdict::Rejected(CertRejection::NotValidated),
        },
    }
}

/// A chain that standard validation refuses, a self-signed one among
/// them, is rejected under the standard policy and accepted under the
/// insecure one.
pub proof fn lemma_insecure_accepts_what_standard_rejects(reason: CertRejection)
    ensures
        verdict_for(TrustPolicy::Standard, ChainCheck::Invalid(reason)) == PeerVerdict::Rejected(
            reason,
        ),
        verdict_for(TrustPolicy::InsecureSkipVerification, ChainCheck::Invalid(reason))
            == PeerVerdict::Accepted,
{
}

} // verus!
