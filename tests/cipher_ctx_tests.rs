use cipher_ctx::ctx::{positive_length, to_c_int, Call, Cipher, CipherCtx, Mode, Phase};
use cipher_ctx::error::{cvt, CryptoError, ErrorStack, Report};

fn ok(written: i32) -> Report {
    Report { rc: 1, written, errors: ErrorStack { codes: Vec::new() } }
}

fn failed(code: u64) -> Report {
    Report { rc: 0, written: 0, errors: ErrorStack { codes: vec![code] } }
}

fn aes_128_cbc() -> Cipher {
    Cipher { nid: 419, block_size: 16, key_len: 16, iv_len: 16, tag_len: 0 }
}

fn aes_128_gcm() -> Cipher {
    Cipher { nid: 895, block_size: 1, key_len: 16, iv_len: 12, tag_len: 16 }
}

fn chacha20() -> Cipher {
    Cipher { nid: 1019, block_size: 1, key_len: 32, iv_len: 16, tag_len: 0 }
}

fn initialized(c: &Cipher, mode: Mode) -> CipherCtx {
    let mut ctx = CipherCtx::new();
    let key = vec![0u8; c.key_len as usize];
    let iv = vec![0u8; c.iv_len as usize];
    assert!(ctx.permits(&Call::Init {
        cipher: Some(*c),
        key_len: Some(key.len()),
        iv_len: Some(iv.len()),
        mode,
    }));
    ctx.init(Some(c), Some(&key), Some(&iv), mode, ok(0)).unwrap();
    ctx
}

#[test]
fn fresh_context_has_no_algorithm() {
    let ctx = CipherCtx::new();
    assert_eq!(ctx.phase(), Phase::Fresh);
    assert_eq!(ctx.cipher(), None);
    assert!(ctx.padding());
    assert!(!ctx.permits(&Call::Query));
    assert!(!ctx.permits(&Call::Update { input_len: 0, output_len: None }));
    assert!(!ctx.permits(&Call::Finalize { output_len: 16 }));
}

#[test]
fn raw_lengths_read_as_options() {
    assert_eq!(positive_length(16), Some(16));
    assert_eq!(positive_length(1), Some(1));
    assert_eq!(positive_length(0), None);
    assert_eq!(positive_length(-1), None);
    assert_eq!(to_c_int(12), 12);
    assert_eq!(Mode::Encrypt.as_raw(), 1);
    assert_eq!(Mode::Decrypt.as_raw(), 0);
}

#[test]
fn cvt_keeps_diagnostics() {
    assert_eq!(cvt(ok(0)), Ok(1));
    assert_eq!(
        cvt(failed(42)),
        Err(CryptoError::PrimitiveFailure(ErrorStack { codes: vec![42] }))
    );
}

#[test]
fn init_binds_algorithm_defaults() {
    let ctx = initialized(&aes_128_cbc(), Mode::Encrypt);
    assert_eq!(ctx.phase(), Phase::Initialized);
    assert_eq!(ctx.block_size(), Some(16));
    assert_eq!(ctx.key_length(), Some(16));
    assert_eq!(ctx.iv_length(), Some(16));
    assert_eq!(ctx.tag_length(), None);
    let gcm = initialized(&aes_128_gcm(), Mode::Encrypt);
    assert_eq!(gcm.iv_length(), Some(12));
    assert_eq!(gcm.tag_length(), Some(16));
}

#[test]
fn init_refuses_key_of_wrong_length() {
    let ctx = CipherCtx::new();
    assert!(!ctx.permits(&Call::Init {
        cipher: Some(aes_128_cbc()),
        key_len: Some(15),
        iv_len: Some(16),
        mode: Mode::Encrypt,
    }));
    assert!(!ctx.permits(&Call::Init {
        cipher: Some(aes_128_cbc()),
        key_len: Some(16),
        iv_len: Some(8),
        mode: Mode::Encrypt,
    }));
    assert!(!ctx.permits(&Call::Init {
        cipher: None,
        key_len: Some(16),
        iv_len: None,
        mode: Mode::Encrypt,
    }));
}

#[test]
fn init_failure_leaves_context_fresh() {
    let mut ctx = CipherCtx::new();
    let r = ctx.init(Some(&aes_128_cbc()), None, None, Mode::Encrypt, failed(7));
    assert_eq!(r, Err(CryptoError::PrimitiveFailure(ErrorStack { codes: vec![7] })));
    assert_eq!(ctx.phase(), Phase::Fresh);
    assert_eq!(ctx.cipher(), None);
}

#[test]
fn iv_length_override_before_iv() {
    let gcm = aes_128_gcm();
    let mut ctx = CipherCtx::new();
    ctx.init(Some(&gcm), None, None, Mode::Encrypt, ok(0)).unwrap();
    assert!(ctx.permits(&Call::SetIvLength { len: 16 }));
    ctx.set_iv_length(16, ok(0)).unwrap();
    assert_eq!(ctx.iv_length(), Some(16));
    let key = [0u8; 16];
    let iv = [0u8; 16];
    assert!(ctx.permits(&Call::Init {
        cipher: None,
        key_len: Some(16),
        iv_len: Some(16),
        mode: Mode::Encrypt,
    }));
    ctx.init(None, Some(&key), Some(&iv), Mode::Encrypt, ok(0)).unwrap();
    assert_eq!(ctx.iv_length(), Some(16));
    assert!(!ctx.permits(&Call::SetIvLength { len: 12 }));
    assert!(!ctx.permits(&Call::Init {
        cipher: None,
        key_len: None,
        iv_len: None,
        mode: Mode::Decrypt,
    }));
}

#[test]
fn rejected_length_override_changes_nothing() {
    let mut ctx = CipherCtx::new();
    ctx.init(Some(&aes_128_gcm()), None, None, Mode::Encrypt, ok(0)).unwrap();
    let r = ctx.set_iv_length(0, failed(3));
    assert_eq!(r, Err(CryptoError::PrimitiveFailure(ErrorStack { codes: vec![3] })));
    assert_eq!(ctx.iv_length(), Some(12));
    let r = ctx.set_key_length(24, failed(4));
    assert!(r.is_err());
    assert_eq!(ctx.key_length(), Some(16));
    ctx.set_key_length(24, ok(0)).unwrap();
    assert_eq!(ctx.key_length(), Some(24));
}

#[test]
fn tag_length_override() {
    let mut ctx = CipherCtx::new();
    ctx.init(Some(&aes_128_gcm()), None, None, Mode::Decrypt, ok(0)).unwrap();
    ctx.set_tag_length(12, ok(0)).unwrap();
    assert_eq!(ctx.tag_length(), Some(12));
    ctx.update(&[1u8; 4], None, ok(0)).unwrap();
    assert!(!ctx.permits(&Call::SetTagLength { len: 8 }));
}

#[test]
fn metadata_queries_repeat() {
    let mut ctx = initialized(&aes_128_cbc(), Mode::Encrypt);
    let first = (ctx.block_size(), ctx.key_length(), ctx.iv_length(), ctx.tag_length());
    let second = (ctx.block_size(), ctx.key_length(), ctx.iv_length(), ctx.tag_length());
    assert_eq!(first, second);
    ctx.set_padding(false);
    let out = [0u8; 48];
    ctx.update(&[0u8; 32], Some(&out), ok(32)).unwrap();
    assert_eq!((ctx.block_size(), ctx.key_length(), ctx.iv_length(), ctx.tag_length()), first);
    let mut fin = [0u8; 16];
    ctx.finalize(&mut fin, ok(0)).unwrap();
    assert_eq!((ctx.block_size(), ctx.key_length(), ctx.iv_length(), ctx.tag_length()), first);
}

#[test]
fn update_needs_one_block_of_headroom() {
    let ctx = initialized(&aes_128_cbc(), Mode::Encrypt);
    assert!(ctx.permits(&Call::Update { input_len: 16, output_len: Some(32) }));
    assert!(!ctx.permits(&Call::Update { input_len: 16, output_len: Some(31) }));
    assert!(!ctx.permits(&Call::Update { input_len: 16, output_len: Some(16) }));
    assert!(ctx.permits(&Call::Update { input_len: 16, output_len: None }));
    let stream = initialized(&chacha20(), Mode::Encrypt);
    assert!(stream.permits(&Call::Update { input_len: 16, output_len: Some(16) }));
    assert!(!stream.permits(&Call::Update { input_len: 16, output_len: Some(15) }));
}

#[test]
fn update_returns_bytes_written() {
    let mut ctx = initialized(&aes_128_cbc(), Mode::Encrypt);
    let out = [0u8; 21];
    assert_eq!(ctx.update(&[0u8; 5], Some(&out), ok(0)), Ok(0));
    let out = [0u8; 27];
    assert_eq!(ctx.update(&[0u8; 11], Some(&out), ok(16)), Ok(16));
    let r = ctx.update(&[0u8; 11], Some(&out), failed(9));
    assert_eq!(r, Err(CryptoError::PrimitiveFailure(ErrorStack { codes: vec![9] })));
}

#[test]
fn data_len_declared_once_before_data() {
    let mut ctx = initialized(&aes_128_gcm(), Mode::Encrypt);
    assert!(ctx.permits(&Call::SetDataLen { len: 64 }));
    ctx.set_data_len(64, ok(0)).unwrap();
    assert!(!ctx.permits(&Call::SetDataLen { len: 64 }));
    let mut other = initialized(&aes_128_gcm(), Mode::Encrypt);
    other.update(&[0u8; 3], None, ok(0)).unwrap();
    assert!(!other.permits(&Call::SetDataLen { len: 64 }));
}

#[test]
fn finalize_right_after_init() {
    let mut ctx = initialized(&aes_128_cbc(), Mode::Encrypt);
    assert!(ctx.permits(&Call::Finalize { output_len: 16 }));
    assert!(!ctx.permits(&Call::Finalize { output_len: 15 }));
    let mut out = [0u8; 16];
    assert_eq!(ctx.finalize(&mut out, ok(16)), Ok(16));
    assert_eq!(ctx.phase(), Phase::Finalized);
    assert!(!ctx.permits(&Call::Finalize { output_len: 16 }));
    assert!(!ctx.permits(&Call::Update { input_len: 0, output_len: None }));
}

#[test]
fn finalize_padding_failure_is_primitive_failure() {
    let mut ctx = initialized(&aes_128_cbc(), Mode::Decrypt);
    let mut out = [9u8; 16];
    let r = ctx.finalize(&mut out, failed(100));
    assert_eq!(r, Err(CryptoError::PrimitiveFailure(ErrorStack { codes: vec![100] })));
    assert_eq!(out, [9u8; 16]);
    assert_eq!(ctx.phase(), Phase::Finalized);
}

#[test]
fn encrypt_tag_read_after_finalize() {
    let mut ctx = initialized(&aes_128_gcm(), Mode::Encrypt);
    assert!(!ctx.permits(&Call::Tag { len: 16 }));
    ctx.update(&[0u8; 20], None, ok(0)).unwrap();
    let out = [0u8; 16];
    ctx.update(&[0u8; 16], Some(&out), ok(16)).unwrap();
    let mut fin = [0u8; 1];
    assert_eq!(ctx.finalize(&mut fin, ok(0)), Ok(0));
    assert!(ctx.permits(&Call::Tag { len: 16 }));
    assert!(!ctx.permits(&Call::Tag { len: 15 }));
    let tag = [0u8; 16];
    assert_eq!(ctx.tag(&tag, ok(0)), Ok(()));
    assert_eq!(ctx.tag(&tag, failed(5)), Err(CryptoError::PrimitiveFailure(ErrorStack { codes: vec![5] })));
}

#[test]
fn decrypt_accepts_verified_tag() {
    let mut ctx = initialized(&aes_128_gcm(), Mode::Decrypt);
    assert!(!ctx.permits(&Call::Tag { len: 16 }));
    let out = [0u8; 16];
    ctx.update(&[0u8; 16], Some(&out), ok(16)).unwrap();
    assert!(ctx.permits(&Call::SetTag { len: 16 }));
    ctx.set_tag(&[0u8; 16], ok(0)).unwrap();
    let mut fin = [3u8; 4];
    assert_eq!(ctx.finalize(&mut fin, ok(0)), Ok(0));
    assert_eq!(fin, [3u8; 4]);
}

#[test]
fn decrypt_corrupted_tag_is_authentication_failure() {
    let mut ctx = initialized(&aes_128_gcm(), Mode::Decrypt);
    let out = [0u8; 16];
    ctx.update(&[0u8; 16], Some(&out), ok(16)).unwrap();
    ctx.set_tag(&[1u8; 16], ok(0)).unwrap();
    let mut fin = [3u8; 4];
    assert_eq!(ctx.finalize(&mut fin, failed(77)), Err(CryptoError::AuthenticationFailure));
    assert_eq!(fin, [0u8; 4]);
}

#[test]
fn decrypt_without_tag_never_accepts() {
    let mut ctx = initialized(&aes_128_gcm(), Mode::Decrypt);
    let mut fin = [3u8; 2];
    assert_eq!(ctx.finalize(&mut fin, ok(0)), Err(CryptoError::AuthenticationFailure));
    assert_eq!(fin, [0u8; 2]);
}

#[test]
fn set_tag_sets_tag_length() {
    let mut ctx = initialized(&aes_128_gcm(), Mode::Decrypt);
    ctx.set_tag(&[0u8; 12], ok(0)).unwrap();
    assert_eq!(ctx.tag_length(), Some(12));
    let enc = initialized(&aes_128_gcm(), Mode::Encrypt);
    assert!(!enc.permits(&Call::SetTag { len: 16 }));
    let cbc = initialized(&aes_128_cbc(), Mode::Decrypt);
    assert!(!cbc.permits(&Call::SetTag { len: 16 }));
}

#[test]
fn new_algorithm_resets_negotiation() {
    let mut ctx = CipherCtx::new();
    ctx.init(Some(&aes_128_gcm()), None, None, Mode::Encrypt, ok(0)).unwrap();
    ctx.set_iv_length(8, ok(0)).unwrap();
    ctx.init(Some(&aes_128_gcm()), None, None, Mode::Decrypt, ok(0)).unwrap();
    assert_eq!(ctx.iv_length(), Some(12));
    ctx.set_padding(false);
    ctx.init(Some(&aes_128_cbc()), None, None, Mode::Encrypt, ok(0)).unwrap();
    assert!(!ctx.padding());
    assert_eq!(ctx.block_size(), Some(16));
}
