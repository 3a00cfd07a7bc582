use ark_core::bark::{Bark, BarkConfig};
use ark_core::wallet::commit_due;

fn config() -> BarkConfig {
    BarkConfig {
        datadir: "/tmp/bark-one".to_string(),
        asp_url: "http://localhost:3535".to_string(),
        network: "regtest".to_string(),
        bitcoind_url: "http://localhost:38332".to_string(),
        bitcoind_cookie: "/tmp/cookie".to_string(),
    }
}

#[test]
fn bark_name() {
    let bark = Bark::new("bark-one".to_string(), config());
    assert_eq!(bark.name(), "bark-one");
}

#[test]
fn bark_command_indices_are_fresh() {
    let mut bark = Bark::new("bark-two".to_string(), config());
    assert_eq!(bark.next_command_index(), 0);
    assert_eq!(bark.next_command_index(), 1);
    assert_eq!(bark.next_command_index(), 2);
    assert_eq!(bark.timeout_ms(), 10_000);
}

#[test]
fn bark_command_args_prepend_datadir() {
    let bark = Bark::new("bark-three".to_string(), config());
    let args = bark.command_args(vec!["onchain".to_string(), "balance".to_string()]);
    assert_eq!(
        args,
        vec![
            "--datadir".to_string(),
            "/tmp/bark-one".to_string(),
            "onchain".to_string(),
            "balance".to_string(),
        ]
    );
}

#[test]
fn wallet_commit_pacing() {
    assert!(commit_due(0));
    assert!(!commit_due(1));
    assert!(!commit_due(9_999));
    assert!(commit_due(10_000));
    assert!(commit_due(20_000));
    assert!(!commit_due(20_001));
}
