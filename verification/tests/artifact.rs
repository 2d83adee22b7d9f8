use bitcoincore_rpc::bitcoin::absolute::LockTime;
use bitcoincore_rpc::bitcoin::psbt::Psbt;
use bitcoincore_rpc::bitcoin::transaction::Version;
use bitcoincore_rpc::bitcoin::Amount;
use bitcoincore_rpc::bitcoin::ScriptBuf;
use bitcoincore_rpc::bitcoin::Transaction;
use bitcoincore_rpc::bitcoin::TxOut;
use btc_outbound::artifact::decode_artifact;
use btc_outbound::artifact::DecodeFailure;

fn payment(sats: u64) -> Psbt {
    let tx = Transaction {
        version: Version::TWO,
        lock_time: LockTime::ZERO,
        input: vec![],
        output: vec![TxOut { value: Amount::from_sat(sats), script_pubkey: ScriptBuf::new() }],
    };
    Psbt::from_unsigned_tx(tx).unwrap()
}

#[test]
fn well_formed_blob_decodes_to_its_transaction() {
    let psbt = payment(123_456);
    let blob = psbt.serialize();
    let decoded = decode_artifact(&blob).unwrap();
    assert_eq!(decoded, psbt);
    assert_eq!(decoded.unsigned_tx.output.len(), 1);
    assert_eq!(decoded.unsigned_tx.output[0].value, Amount::from_sat(123_456));
    assert_eq!(decoded.serialize(), blob);
}

#[test]
fn different_blobs_decode_to_different_transactions() {
    let first = decode_artifact(&payment(1).serialize()).unwrap();
    let second = decode_artifact(&payment(2).serialize()).unwrap();
    assert_ne!(first, second);
}

#[test]
fn wrong_magic_is_refused() {
    let blob: Vec<u8> = vec![0x70, 0x73, 0x62, 0x73, 0xff, 0x00];
    assert_eq!(
        decode_artifact(&blob),
        Err(DecodeFailure { reason: String::from("invalid magic") })
    );
}

#[test]
fn wrong_separator_is_refused() {
    let blob: Vec<u8> = vec![0x70, 0x73, 0x62, 0x74, 0xfe, 0x00];
    assert_eq!(
        decode_artifact(&blob),
        Err(DecodeFailure { reason: String::from("invalid separator") })
    );
}

#[test]
fn truncated_blob_is_refused() {
    let mut blob = payment(5).serialize();
    blob.truncate(blob.len() - 3);
    let failure = decode_artifact(&blob).unwrap_err();
    assert_eq!(failure.reason, Psbt::deserialize(&blob).unwrap_err().to_string());
    assert!(decode_artifact(&vec![]).is_err());
}
