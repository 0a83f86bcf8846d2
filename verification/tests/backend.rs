//! Round-trip through the external proving backend: the library generates
//! the trace and fixes the constraint set, the backend proves and verifies.

use p3_air::{Air, AirBuilder, BaseAir};
use p3_baby_bear::{default_babybear_poseidon2_16, BabyBear, Poseidon2BabyBear};
use p3_challenger::DuplexChallenger;
use p3_commit::ExtensionMmcs;
use p3_dft::Radix2DitParallel;
use p3_field::extension::BinomialExtensionField;
use p3_field::{Field, PrimeCharacteristicRing};
use p3_fri::{FriParameters, TwoAdicFriPcs};
use p3_matrix::dense::RowMajorMatrix;
use p3_matrix::Matrix;
use p3_merkle_tree::MerkleTreeMmcs;
use p3_symmetric::{PaddingFreeSponge, TruncatedPermutation};
use p3_uni_stark::{prove, verify, StarkConfig};

use plonky3_example::air::MyAir;
use plonky3_example::trace::generate_air_trace;

type Val = BabyBear;
type Perm = Poseidon2BabyBear<16>;
type BackendHash = PaddingFreeSponge<Perm, 16, 8, 8>;
type BackendCompress = TruncatedPermutation<Perm, 2, 8, 16>;
type ValMmcs =
    MerkleTreeMmcs<<Val as Field>::Packing, <Val as Field>::Packing, BackendHash, BackendCompress, 8>;
type Challenge = BinomialExtensionField<Val, 4>;
type ChallengeMmcs = ExtensionMmcs<Val, Challenge, ValMmcs>;
type Challenger = DuplexChallenger<Val, Perm, 16, 8>;
type Dft = Radix2DitParallel<Val>;
type Pcs = TwoAdicFriPcs<Val, Dft, ValMmcs, ChallengeMmcs>;
type BackendConfig = StarkConfig<Pcs, Challenge, Challenger>;

/// The backend-facing mirror of the library's AIR definition: it asserts
/// the same five constraints, but over the backend's symbolic expressions.
struct BackendAir {
    final_value: u32,
}

impl<F> BaseAir<F> for BackendAir {
    fn width(&self) -> usize {
        2
    }
}

impl<AB: AirBuilder> Air<AB> for BackendAir {
    fn eval(&self, builder: &mut AB) {
        let main = builder.main();
        let local = main.row_slice(0).expect("the trace has no rows");
        let next = main.row_slice(1).expect("the trace has one row only");

        builder.when_first_row().assert_eq(local[0], AB::Expr::ZERO);
        builder.when_first_row().assert_eq(local[1], AB::Expr::ONE);

        builder.when_transition().assert_eq(next[0], local[1]);
        builder.when_transition().assert_eq(next[1], local[0] + local[1]);

        let final_value = AB::Expr::from_u32(self.final_value);
        builder.when_last_row().assert_eq(local[1], final_value);
    }
}

/// A deterministic backend configuration, built once per test.
fn backend_config() -> BackendConfig {
    let perm = default_babybear_poseidon2_16();
    let hash = BackendHash::new(perm.clone());
    let compress = BackendCompress::new(perm.clone());
    let val_mmcs = ValMmcs::new(hash, compress);
    let challenge_mmcs = ChallengeMmcs::new(val_mmcs.clone());
    let dft = Dft::default();
    let fri_params = FriParameters {
        log_blowup: 2,
        log_final_poly_len: 0,
        num_queries: 28,
        proof_of_work_bits: 8,
        mmcs: challenge_mmcs,
    };
    let pcs = Pcs::new(dft, val_mmcs, fri_params);
    let challenger = Challenger::new(perm);
    BackendConfig::new(pcs, challenger)
}

/// Converts the library's verified trace into the backend's matrix type.
fn backend_trace(num_steps: usize) -> RowMajorMatrix<Val> {
    let t = generate_air_trace(num_steps).expect("invalid instance");
    let values: Vec<Val> = t.values.iter().map(|f| Val::from_u32(f.value)).collect();
    RowMajorMatrix::new(values, t.width)
}

fn public_inputs(values: &[u64]) -> Vec<Val> {
    values.iter().map(|v| Val::from_u64(*v)).collect()
}

#[test]
fn prove_then_verify_succeeds() {
    let air = MyAir { num_steps: 8, final_value: 21 };
    let backend_air = BackendAir { final_value: air.final_value };

    let trace = backend_trace(air.num_steps);
    let config = backend_config();
    let pis = public_inputs(&[0, 1, 21]);

    let proof = prove(&config, &backend_air, trace, &pis);
    verify(&config, &backend_air, &proof, &pis).expect("verification failed");
}

#[test]
fn verify_rejects_an_altered_public_input() {
    let air = MyAir { num_steps: 8, final_value: 21 };
    let backend_air = BackendAir { final_value: air.final_value };

    let trace = backend_trace(air.num_steps);
    let config = backend_config();
    let pis = public_inputs(&[0, 1, 21]);

    let proof = prove(&config, &backend_air, trace, &pis);

    for altered_index in 0..pis.len() {
        let mut altered = pis.clone();
        altered[altered_index] += Val::ONE;
        assert!(verify(&config, &backend_air, &proof, &altered).is_err());
    }
}
