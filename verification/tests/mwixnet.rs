use wallet_contract::error::Error;
use wallet_contract::mwixnet::types::vec_xpubkey_hex::{deserialize, serialize};
use wallet_contract::mwixnet::types::MixnetReqCreationParams;

#[test]
fn xpubkeys_round_trip_through_hex() {
    let mut a = [0u8; 32];
    a[0] = 0xab;
    a[31] = 0x01;
    let keys = vec![a, [0xff; 32]];
    let hexes = serialize(&keys);
    assert_eq!(hexes[0], format!("ab{}01", "00".repeat(30)));
    assert_eq!(hexes[1], "ff".repeat(32));
    assert_eq!(deserialize(&hexes), Ok(keys.clone()));
    let params = MixnetReqCreationParams { server_pubkeys: keys, fee_per_hop: 50_000_000 };
    assert_eq!(serialize(&params.server_pubkeys).len(), 2);
}

#[test]
fn xpubkeys_reject_bad_hex_and_lengths() {
    assert_eq!(deserialize(&vec!["00".repeat(31)]), Err(Error::XPubKeyLength(31)));
    assert_eq!(deserialize(&vec!["zz".to_string()]), Err(Error::InvalidHex("zz".to_string())));
    assert_eq!(deserialize(&vec!["0".to_string()]), Err(Error::InvalidHex("0".to_string())));
    // The decoder accepts a 0x prefix and upper case
    let upper = format!("0x{}", "AB".repeat(32));
    assert_eq!(deserialize(&vec![upper]), Ok(vec![[0xab; 32]]));
    assert_eq!(deserialize(&vec![]), Ok(vec![]));
    // The decoder trims whitespace, Unicode whitespace too
    let spaced = format!("\u{a0}{} ", "ab".repeat(32));
    assert_eq!(deserialize(&vec![spaced]), Ok(vec![[0xab; 32]]));
    // Text that is not ASCII once trimmed is refused before it is decoded
    let accented = "ä".repeat(32);
    assert_eq!(
        deserialize(&vec!["00".repeat(32), accented.clone()]),
        Err(Error::InvalidHex(accented))
    );
    assert_eq!(serialize(&vec![]), Vec::<String>::new());
}
