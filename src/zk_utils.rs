use vstd::prelude::*;

use crate::errors::ErrorCode;

verus! {

/// What a proof attests; each kind fixes the shape of its public inputs.
#[derive(Clone, Copy, Debug, PartialEq, Eq, Structural)]
pub enum ProofKind {
    /// `old_commitment (+|-) amount = new_commitment`.
    BalanceUpdate,
    /// A transfer, range or approval statement over opaque context.
    Transfer,
    /// Uniqueness of the prover's identity.
    Identity,
}

/// The public inputs that accompany a proof, one shape per kind.
#[derive(Clone, Copy, Debug)]
pub enum PublicInputs {
    BalanceUpdate { old_commitment: [u8; 64], amount: u64, new_commitment: [u8; 64] },
    Transfer,
    Identity,
}

/// Why the verifier refused a proof.
#[derive(Clone, Copy, Debug, PartialEq, Eq, Structural)]
pub enum ProofError {
    /// The proof bytes were empty.
    Empty,
    /// The proof does not attest the given statement.
    Invalid,
}

impl PublicInputs {
    pub open spec fn spec_kind(self) -> ProofKind {
        match self {
            PublicInputs::BalanceUpdate { .. } => ProofKind::BalanceUpdate,
            PublicInputs::Transfer => ProofKind::Transfer,
            PublicInputs::Identity => ProofKind::Identity,
        }
    }

    /// The kind of proof these inputs belong to.
    pub fn kind(&self) -> (r: ProofKind)
        ensures
            r == self.spec_kind(),
    {
        match self {
            PublicInputs::BalanceUpdate { .. } => ProofKind::BalanceUpdate,
            PublicInputs::Transfer => ProofKind::Transfer,
            PublicInputs::Identity => ProofKind::Identity,
        }
    }
}

/// The outcome of verification: a function of its three arguments alone.
pub open spec fn proof_outcome(kind: ProofKind, proof: Seq<u8>, inputs: PublicInputs) -> Result<(), ProofError> {
    if proof.len() == 0 {
        Err(ProofError::Empty)
    } else if inputs.spec_kind() != kind {
        Err(ProofError::Invalid)
    } else {
        Ok(())
    }
}

/// Checks `proof` as a proof of `kind` over `public_inputs`. Non-empty proofs
/// of the matching kind are accepted: no proof scheme is wired in, so the
/// emptiness check is the whole of the attestation.
pub fn verify(kind: ProofKind, proof: &Vec<u8>, public_inputs: &PublicInputs) -> (r: Result<(), ProofError>)
    ensures
        r == proof_outcome(kind, proof@, *public_inputs),
{
    if proof.len() == 0 {
        Err(ProofError::Empty)
    } else if public_inputs.kind() != kind {
        Err(ProofError::Invalid)
    } else {
        Ok(())
    }
}

/// Verifies a proof that `old_balance + amount = new_balance` (or `-` on the
/// way out) without revealing the balances.
pub fn verify_confidential_balance(
    zk_proof: Vec<u8>,
    amount: u64,
    old_balance: [u8; 64],
    new_balance: [u8; 64],
) -> (r: Result<(), ErrorCode>)
    ensures
        r is Ok <==> zk_proof@.len() > 0,
        r matches Err(e) ==> e == ErrorCode::InvalidZKProof,
{
    let inputs = PublicInputs::BalanceUpdate {
        old_commitment: old_balance,
        amount,
        new_commitment: new_balance,
    };
    match verify(ProofKind::BalanceUpdate, &zk_proof, &inputs) {
        Ok(()) => Ok(()),
        Err(_) => Err(ErrorCode::InvalidZKProof),
    }
}

/// Verifies a proof for a confidential transfer (range proof on the amount).
pub fn verify_transfer_proof(zk_proof: Vec<u8>) -> (r: Result<(), ErrorCode>)
    ensures
        r is Ok <==> zk_proof@.len() > 0,
        r matches Err(e) ==> e == ErrorCode::InvalidZKProof,
{
    match verify(ProofKind::Transfer, &zk_proof, &PublicInputs::Transfer) {
        Ok(()) => Ok(()),
        Err(_) => Err(ErrorCode::InvalidZKProof),
    }
}

/// Verifies a proof of unique identity, against Sybil attacks. Empty proof
/// bytes are an invalid proof; a proof that the verifier rejects is a Sybil
/// attempt.
pub fn verify_identity_proof(zk_identity_proof: Vec<u8>) -> (r: Result<(), ErrorCode>)
    ensures
        r == match proof_outcome(ProofKind::Identity, zk_identity_proof@, PublicInputs::Identity) {
            Ok(()) => Ok::<(), ErrorCode>(()),
            Err(ProofError::Empty) => Err(ErrorCode::InvalidZKProof),
            Err(ProofError::Invalid) => Err(ErrorCode::SybilAttackDetected),
        },
        r is Ok <==> zk_identity_proof@.len() > 0,
        zk_identity_proof@.len() == 0 ==> r == Err::<(), ErrorCode>(ErrorCode::InvalidZKProof),
{
    match verify(ProofKind::Identity, &zk_identity_proof, &PublicInputs::Identity) {
        Ok(()) => Ok(()),
        Err(ProofError::Empty) => Err(ErrorCode::InvalidZKProof),
        Err(ProofError::Invalid) => Err(ErrorCode::SybilAttackDetected),
    }
}

/// The verifier is side-effect free: two calls on identical kind, proof and
/// public inputs reach the same outcome.
pub proof fn lemma_verify_is_deterministic(
    kind: ProofKind,
    proof_a: Seq<u8>,
    inputs_a: PublicInputs,
    proof_b: Seq<u8>,
    inputs_b: PublicInputs,
)
    requires
        proof_a == proof_b,
        inputs_a == inputs_b,
    ensures
        proof_outcome(kind, proof_a, inputs_a) == proof_outcome(kind, proof_b, inputs_b),
{
}

} // verus!
