use gpu_vault::cli::{parse_cluster, Cluster};
use gpu_vault::keys::{vault_config_address, Pubkey};

#[test]
fn key_equality_compares_all_bytes() {
    let a = Pubkey([3; 32]);
    let mut bytes = [3u8; 32];
    assert!(a.key_eq(&Pubkey(bytes)));
    bytes[31] = 4;
    assert!(!a.key_eq(&Pubkey(bytes)));
    assert_eq!(Pubkey::new_from_array(bytes).to_bytes(), bytes);
}

#[test]
fn vault_config_address_is_deterministic_per_program() {
    let program = Pubkey([7; 32]);
    let (k1, b1) = vault_config_address(&program).unwrap();
    let (k2, b2) = vault_config_address(&program).unwrap();
    assert_eq!(k1.0, k2.0);
    assert_eq!(b1, b2);
    assert_ne!(k1.0, program.0);
    let (k3, _) = vault_config_address(&Pubkey([8; 32])).unwrap();
    assert_ne!(k1.0, k3.0);
}

#[test]
fn cluster_names() {
    assert!(matches!(parse_cluster("devnet"), Cluster::Devnet));
    assert!(matches!(parse_cluster("mainnet"), Cluster::Mainnet));
    assert!(matches!(parse_cluster("localnet"), Cluster::Localnet));
    assert!(matches!(parse_cluster("localhost"), Cluster::Localnet));
    match parse_cluster("http://127.0.0.1:8899") {
        Cluster::Custom(rpc, ws) => {
            assert_eq!(rpc, "http://127.0.0.1:8899");
            assert_eq!(ws, "http://127.0.0.1:8899");
        }
        _ => panic!("expected a custom cluster"),
    }
}
