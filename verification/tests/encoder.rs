//! Call-encoder checks: selectors, signatures and full payloads.

use evm_harness::bytes::{Address, Word};
use evm_harness::encode::{
    encode_call, selector, signature_bytes, EncodeError, FunctionDecl, Interface, ParamType, Token,
};

fn transfer_decl() -> FunctionDecl {
    FunctionDecl {
        name: b"transfer".to_vec(),
        params: vec![ParamType::Address, ParamType::Uint256],
    }
}

fn iface() -> Interface {
    Interface {
        functions: vec![
            FunctionDecl { name: b"balanceOf".to_vec(), params: vec![ParamType::Address] },
            transfer_decl(),
        ],
    }
}

#[test]
fn signature_is_name_and_joined_params() {
    let sig = signature_bytes(&transfer_decl());
    assert_eq!(sig, b"transfer(address,uint256)".to_vec());
    let sig0 = signature_bytes(&FunctionDecl { name: b"totalSupply".to_vec(), params: vec![] });
    assert_eq!(sig0, b"totalSupply()".to_vec());
}

#[test]
fn selector_of_transfer_is_the_known_tag() {
    let sel = selector(&b"transfer(address,uint256)".to_vec());
    assert_eq!(sel, vec![0xa9, 0x05, 0x9c, 0xbb]);
    let sel2 = selector(&b"balanceOf(address)".to_vec());
    assert_eq!(sel2, vec![0x70, 0xa0, 0x82, 0x31]);
}

#[test]
fn payload_is_selector_then_padded_arguments() {
    let mut to = vec![0u8; 20];
    to[0] = 0x10;
    let args = vec![
        Token::Address(Address::from_bytes(to.clone()).unwrap()),
        Token::Uint(Word::from_u64(9999)),
    ];
    let payload = encode_call(&iface(), &b"transfer".to_vec(), &args).unwrap();

    let mut expected = vec![0xa9, 0x05, 0x9c, 0xbb];
    expected.extend_from_slice(&[0u8; 12]);
    expected.extend_from_slice(&to);
    expected.extend_from_slice(Word::from_u64(9999).as_bytes());
    assert_eq!(payload, expected);
    assert_eq!(payload.len(), 4 + 32 + 32);
}

#[test]
fn unknown_name_is_a_signature_mismatch() {
    let r = encode_call(&iface(), &b"mint".to_vec(), &Vec::new());
    assert_eq!(r, Err(EncodeError::SignatureMismatch));
}

#[test]
fn wrong_argument_count_is_a_type_mismatch() {
    let r = encode_call(
        &iface(),
        &b"transfer".to_vec(),
        &vec![Token::Uint(Word::from_u64(1))],
    );
    assert_eq!(r, Err(EncodeError::ArgumentTypeMismatch));
}

#[test]
fn wrong_argument_kind_is_a_type_mismatch() {
    let r = encode_call(
        &iface(),
        &b"balanceOf".to_vec(),
        &vec![Token::Uint(Word::from_u64(1))],
    );
    assert_eq!(r, Err(EncodeError::ArgumentTypeMismatch));
}
