use ironfish_asset::asset::{Asset, ASSET_LENGTH, METADATA_LENGTH, NAME_LENGTH, PUBLIC_ADDRESS_SIZE};
use ironfish_asset::encoding::str_to_array;
use ironfish_asset::errors::IronfishError;
use ironfish_asset::hashing::hash_candidate;
use ironfish_asset::identifier::AssetIdentifier;

const PUBLIC_ADDRESS: [u8; PUBLIC_ADDRESS_SIZE] = [
    81, 229, 109, 20, 111, 174, 52, 91, 120, 215, 34, 107, 174, 123, 78, 102, 189, 188, 226, 7,
    173, 7, 76, 135, 130, 203, 71, 131, 62, 219, 240, 68,
];

const METADATA: &str = "{ 'token_identifier': '0x123' }";

fn owner_with(seed: u8) -> [u8; PUBLIC_ADDRESS_SIZE] {
    let mut owner = PUBLIC_ADDRESS;
    owner[0] = seed;
    owner
}

#[test]
fn test_asset_new() {
    let owner = PUBLIC_ADDRESS;
    let name = "name";
    let metadata = METADATA;

    let asset = Asset::new(owner, name, metadata).expect("can create an asset");

    assert_eq!(asset.owner(), owner);
    assert_eq!(asset.name(), &str_to_array::<NAME_LENGTH>(name)[..]);
    assert_eq!(asset.metadata(), &str_to_array::<METADATA_LENGTH>(metadata)[..]);
}

#[test]
fn test_asset_name_must_be_set() {
    let owner = PUBLIC_ADDRESS;
    let metadata = "";

    let bad_asset1 = Asset::new(owner, "", metadata);
    assert!(bad_asset1.is_err());

    let bad_asset2 = Asset::new(owner, "   ", metadata);
    assert!(bad_asset2.is_err());

    let good_asset = Asset::new(owner, "foo", metadata);
    assert!(good_asset.is_ok());
}

#[test]
fn test_asset_new_with_nonce() {
    let owner = PUBLIC_ADDRESS;
    let name = str_to_array("name");
    let metadata = str_to_array(METADATA);
    let nonce = 1;

    let asset = Asset::new_with_nonce(owner, name, metadata, nonce).expect("can create an asset");

    assert_eq!(asset.owner(), owner);
    assert_eq!(asset.name(), &name[..]);
    assert_eq!(asset.metadata(), &metadata[..]);
}

#[test]
fn test_asset_new_with_nonce_invalid_nonce() {
    let nonce = 7;
    let owner = PUBLIC_ADDRESS;
    let name = str_to_array("name");
    let metadata = str_to_array(METADATA);

    let asset_res = Asset::new_with_nonce(owner, name, metadata, nonce);

    assert!(asset_res.is_err());
}

#[test]
fn empty_names_give_invalid_data() {
    assert_eq!(Asset::new(PUBLIC_ADDRESS, "", METADATA).unwrap_err(), IronfishError::InvalidData);
    assert_eq!(Asset::new(PUBLIC_ADDRESS, "   ", METADATA).unwrap_err(), IronfishError::InvalidData);
    assert_eq!(Asset::new(PUBLIC_ADDRESS, "\t\n ", METADATA).unwrap_err(), IronfishError::InvalidData);
}

#[test]
fn invalid_nonce_gives_invalid_asset_identifier() {
    let res = Asset::new_with_nonce(PUBLIC_ADDRESS, str_to_array("name"), str_to_array(METADATA), 7);
    assert_eq!(res.unwrap_err(), IronfishError::InvalidAssetIdentifier);
}

#[test]
fn new_trims_the_name() {
    let asset = Asset::new(PUBLIC_ADDRESS, "  name \n", METADATA).unwrap();
    assert_eq!(asset.name(), &str_to_array::<NAME_LENGTH>("name")[..]);
}

#[test]
fn new_finds_the_smallest_valid_nonce() {
    let asset = Asset::new(PUBLIC_ADDRESS, "name", METADATA).unwrap();
    let name = str_to_array("name");
    let metadata = str_to_array(METADATA);
    for nonce in 0..asset.nonce() {
        assert!(Asset::new_with_nonce(PUBLIC_ADDRESS, name, metadata, nonce).is_err());
    }
    let again = Asset::new_with_nonce(PUBLIC_ADDRESS, name, metadata, asset.nonce()).unwrap();
    assert_eq!(again.id(), asset.id());
    assert_eq!(asset.nonce(), 0);
}

#[test]
fn new_with_nonce_is_deterministic() {
    let name = str_to_array("name");
    let metadata = str_to_array(METADATA);
    let a = Asset::new_with_nonce(PUBLIC_ADDRESS, name, metadata, 1).unwrap();
    let b = Asset::new_with_nonce(PUBLIC_ADDRESS, name, metadata, 1).unwrap();
    assert_eq!(a.id(), b.id());
    assert_eq!(a.id().as_bytes(), b.id().as_bytes());
    assert!(a.asset_generator() == b.asset_generator());
    assert!(a.value_commitment_generator() == b.value_commitment_generator());
}

#[test]
fn identifier_is_the_candidate_digest() {
    let name = str_to_array::<NAME_LENGTH>("name");
    let metadata = str_to_array::<METADATA_LENGTH>(METADATA);
    let expected: [u8; 32] = [
        144, 190, 45, 132, 72, 179, 105, 68, 149, 194, 32, 188, 76, 180, 182, 232, 182, 78, 7, 118,
        97, 39, 179, 221, 173, 251, 183, 233, 3, 6, 122, 60,
    ];
    assert_eq!(hash_candidate(&PUBLIC_ADDRESS, &name, &metadata, 1), expected);
    let asset = Asset::new_with_nonce(PUBLIC_ADDRESS, name, metadata, 1).unwrap();
    assert_eq!(asset.id().as_bytes(), &expected);
}

#[test]
fn candidate_digest_depends_on_the_nonce() {
    let name = str_to_array::<NAME_LENGTH>("name");
    let metadata = str_to_array::<METADATA_LENGTH>(METADATA);
    let expected_zero: [u8; 32] = [
        61, 147, 54, 245, 205, 202, 143, 212, 88, 51, 19, 48, 253, 53, 52, 143, 76, 63, 44, 26,
        239, 231, 203, 85, 68, 49, 60, 75, 82, 61, 151, 235,
    ];
    assert_eq!(hash_candidate(&PUBLIC_ADDRESS, &name, &metadata, 0), expected_zero);
    assert_ne!(
        hash_candidate(&PUBLIC_ADDRESS, &name, &metadata, 0),
        hash_candidate(&PUBLIC_ADDRESS, &name, &metadata, 1)
    );
}

#[test]
fn read_of_write_round_trips() {
    let asset = Asset::new(PUBLIC_ADDRESS, "name", METADATA).unwrap();
    let bytes = asset.write();
    assert_eq!(bytes.len(), ASSET_LENGTH);
    assert_eq!(&bytes[..32], &PUBLIC_ADDRESS[..]);
    assert_eq!(bytes[ASSET_LENGTH - 1], asset.nonce());
    let back = Asset::read(&bytes).unwrap();
    assert_eq!(back.owner(), asset.owner());
    assert_eq!(back.name(), asset.name());
    assert_eq!(back.metadata(), asset.metadata());
    assert_eq!(back.nonce(), asset.nonce());
    assert_eq!(back.id(), asset.id());
}

#[test]
fn read_rejects_short_input() {
    let asset = Asset::new(PUBLIC_ADDRESS, "name", METADATA).unwrap();
    let bytes = asset.write();
    assert_eq!(Asset::read(&bytes[..ASSET_LENGTH - 1]).unwrap_err(), IronfishError::TruncatedInput);
    assert_eq!(Asset::read(&[]).unwrap_err(), IronfishError::TruncatedInput);
}

#[test]
fn read_rejects_an_invalid_nonce() {
    let asset = Asset::new_with_nonce(PUBLIC_ADDRESS, str_to_array("name"), str_to_array(METADATA), 1)
        .unwrap();
    let mut bytes = asset.write();
    bytes[ASSET_LENGTH - 1] = 7;
    assert_eq!(Asset::read(&bytes).unwrap_err(), IronfishError::InvalidAssetIdentifier);
}

#[test]
fn tampered_bytes_are_detected() {
    let asset = Asset::new(PUBLIC_ADDRESS, "name", METADATA).unwrap();
    let bytes = asset.write();
    for i in 0..ASSET_LENGTH {
        let mut tampered = bytes.clone();
        tampered[i] ^= 0x01;
        match Asset::read(&tampered) {
            Ok(other) => assert_ne!(other.id(), asset.id()),
            Err(e) => assert_eq!(e, IronfishError::InvalidAssetIdentifier),
        }
    }
}

#[test]
fn distinct_assets_have_distinct_identifiers() {
    let mut assets = Vec::new();
    for seed in 0..8u8 {
        for (n, name) in ["alpha", "beta", "gamma"].iter().enumerate() {
            let metadata = format!("{{ 'index': {} }}", n);
            assets.push(Asset::new(owner_with(seed), name, &metadata).unwrap());
        }
    }
    for i in 0..assets.len() {
        for j in (i + 1)..assets.len() {
            assert_ne!(assets[i].id(), assets[j].id());
            assert!(assets[i].asset_generator() != assets[j].asset_generator());
            assert!(assets[i].value_commitment_generator() != assets[j].value_commitment_generator());
        }
    }
}

#[test]
fn str_to_array_pads_and_truncates() {
    let short: [u8; 6] = str_to_array("abc");
    assert_eq!(short, [97, 98, 99, 0, 0, 0]);
    let long: [u8; 2] = str_to_array("abc");
    assert_eq!(long, [97, 98]);
    let multibyte: [u8; 3] = str_to_array("é");
    assert_eq!(multibyte, [0xc3, 0xa9, 0]);
}

#[test]
fn identifier_rejects_small_order_and_invalid_points() {
    let mut identity = [0u8; 32];
    identity[0] = 1;
    assert_eq!(AssetIdentifier::new(identity).unwrap_err(), IronfishError::InvalidAssetIdentifier);
    assert_eq!(AssetIdentifier::new([0xff; 32]).unwrap_err(), IronfishError::InvalidAssetIdentifier);
    assert_eq!(AssetIdentifier::new([0; 32]).unwrap_err(), IronfishError::InvalidAssetIdentifier);
    assert!(AssetIdentifier::new([1; 32]).is_ok());
}

#[test]
fn identifier_accepts_an_asset_digest() {
    let asset = Asset::new(PUBLIC_ADDRESS, "name", METADATA).unwrap();
    let id = AssetIdentifier::new(*asset.id().as_bytes()).unwrap();
    assert_eq!(&id, asset.id());
    assert!(id.asset_generator() == asset.asset_generator());
}

#[test]
fn long_fields_are_truncated_to_width() {
    let long_name = "n".repeat(40);
    let long_metadata = "m".repeat(100);
    let asset = Asset::new(PUBLIC_ADDRESS, &long_name, &long_metadata).unwrap();
    assert_eq!(asset.name(), &[b'n'; NAME_LENGTH][..]);
    assert_eq!(asset.metadata(), &[b'm'; METADATA_LENGTH][..]);
}
