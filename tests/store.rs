use memsecurity::{
    EncryptedMem, SecretError, MAX_MESSAGE_LENGTH, ZeroizeArray, ZeroizeBytes, ZeroizeBytesArray, TAG_LENGTH,
    XNONCE_LENGTH,
};

fn fresh_key() -> ZeroizeArray<32> {
    ZeroizeArray::<32>::csprng()
}

#[test]
fn correctness_test() {
    let key = fresh_key();

    let mut store = EncryptedMem::<32>::new();
    let plaintext = ZeroizeArray::new([4u8; 32]);

    assert!(store.encrypt(&plaintext, key.chacha_key().unwrap()).is_ok());

    let decrypted = store.decrypt(key.chacha_key().unwrap()).unwrap();

    let decrypted: [u8; 32] = decrypted.expose()[..].try_into().unwrap();

    assert_eq!(
        &plaintext.expose_borrowed().as_slice(),
        &decrypted.as_slice()
    );
}

#[test]
fn ciphertext_is_plaintext_plus_tag() {
    let key = fresh_key();
    let mut store = EncryptedMem::<32>::new();
    let plaintext = ZeroizeArray::new([4u8; 32]);
    store.encrypt(&plaintext, key.chacha_key().unwrap()).unwrap();
    assert_eq!(store.ciphertext().expose().len(), 48);
    assert_eq!(store.ciphertext().expose().len(), 32 + TAG_LENGTH);
    assert_ne!(&store.ciphertext().expose()[..32], &[4u8; 32][..]);
    let decrypted = store.decrypt(key.chacha_key().unwrap()).unwrap();
    assert_eq!(decrypted.expose().as_slice(), &[4u8; 32][..]);
}

#[test]
fn encrypt_chains_and_replaces_ciphertext() {
    let key = fresh_key();
    let mut store = EncryptedMem::<8>::new();
    let first = ZeroizeArray::new([1u8; 8]);
    let second = ZeroizeArray::new([2u8; 8]);
    let key_view = key.chacha_key().unwrap();
    store
        .encrypt(&first, key_view)
        .unwrap()
        .encrypt(&second, key_view)
        .unwrap();
    assert_eq!(store.ciphertext().expose().len(), 8 + TAG_LENGTH);
    let decrypted = store.decrypt(key_view).unwrap();
    assert_eq!(decrypted.expose().as_slice(), &[2u8; 8][..]);
    assert_eq!(first.expose(), [1u8; 8]);
}

#[test]
fn nonces_of_two_cells_differ() {
    let a = EncryptedMem::<32>::new();
    let b = EncryptedMem::<32>::new();
    assert_eq!(a.nonce().len(), XNONCE_LENGTH);
    assert_ne!(a.nonce(), b.nonce());
}

#[test]
fn mutated_ciphertext_fails_authentication() {
    let key = fresh_key();
    let mut store = EncryptedMem::<32>::new();
    store
        .encrypt(&ZeroizeArray::new([4u8; 32]), key.chacha_key().unwrap())
        .unwrap();
    let mut bytes = store.ciphertext().expose().clone();
    bytes[5] ^= 0xff;
    let mut buffer = ZeroizeBytesArray::<32>::with_additional_capacity(TAG_LENGTH);
    buffer.set(bytes).unwrap();
    let mut tampered = EncryptedMem::from_parts(store.nonce(), buffer);
    let r = tampered.decrypt(key.chacha_key().unwrap());
    assert!(matches!(r, Err(SecretError::AuthenticationFailure)));
}

#[test]
fn every_single_bit_flip_is_detected() {
    let key = fresh_key();
    let mut store = EncryptedMem::<4>::new();
    store
        .encrypt(&ZeroizeArray::new([7u8, 8, 9, 10]), key.chacha_key().unwrap())
        .unwrap();
    let sealed_bytes = store.ciphertext().expose().clone();
    for byte in 0..sealed_bytes.len() {
        for bit in 0..8 {
            let mut bytes = sealed_bytes.clone();
            bytes[byte] ^= 1u8 << bit;
            let mut buffer = ZeroizeBytesArray::<4>::with_additional_capacity(TAG_LENGTH);
            buffer.set(bytes).unwrap();
            let mut tampered = EncryptedMem::from_parts(store.nonce(), buffer);
            let r = tampered.decrypt(key.chacha_key().unwrap());
            assert!(matches!(r, Err(SecretError::AuthenticationFailure)));
        }
    }
    let mut untouched = EncryptedMem::from_parts(store.nonce(), store.ciphertext().clone());
    let r = untouched.decrypt(key.chacha_key().unwrap()).unwrap();
    assert_eq!(r.expose().as_slice(), &[7u8, 8, 9, 10][..]);
}

#[test]
fn wrong_key_fails_authentication() {
    let key = fresh_key();
    let other = ZeroizeArray::new([0u8; 32]);
    let mut store = EncryptedMem::<32>::new();
    store
        .encrypt(&ZeroizeArray::new([4u8; 32]), key.chacha_key().unwrap())
        .unwrap();
    let r = store.decrypt(other.chacha_key().unwrap());
    assert!(matches!(r, Err(SecretError::AuthenticationFailure)));
}

#[test]
fn short_key_is_refused() {
    let short = ZeroizeArray::new([1u8; 16]);
    assert!(matches!(short.chacha_key(), Err(SecretError::InvalidKeyLength)));
    let mut store = EncryptedMem::<32>::new();
    let r = store.encrypt(&ZeroizeArray::new([4u8; 32]), &[1u8; 16]);
    assert!(matches!(r, Err(SecretError::InvalidKeyLength)));
    assert!(store.ciphertext().expose().is_empty());
    let r = store.decrypt(&[1u8; 31]);
    assert!(matches!(r, Err(SecretError::InvalidKeyLength)));
}

#[test]
fn cell_without_room_for_the_tag_is_exhausted() {
    let key = fresh_key();
    let mut store = EncryptedMem::from_parts([0u8; 24], ZeroizeBytesArray::<32>::new());
    let r = store.encrypt(&ZeroizeArray::new([4u8; 32]), key.chacha_key().unwrap());
    assert!(matches!(r, Err(SecretError::BufferExhausted)));
    assert!(store.ciphertext().expose().is_empty());
}

#[test]
fn added_capacity_cell_round_trips() {
    let key = fresh_key();
    let mut store = EncryptedMem::<16>::new_with_added_capacity(8);
    store
        .encrypt(&ZeroizeArray::new([3u8; 16]), key.chacha_key().unwrap())
        .unwrap();
    assert_eq!(store.ciphertext().expose().len(), 32);
    let r = store.decrypt(key.chacha_key().unwrap()).unwrap();
    assert_eq!(r.expose().as_slice(), &[3u8; 16][..]);
}

#[test]
fn array_zeroize_is_idempotent() {
    let mut secret = ZeroizeArray::new([9u8; 8]);
    secret.zeroize();
    assert_eq!(secret.expose(), [0u8; 8]);
    secret.zeroize();
    assert_eq!(secret.expose(), [0u8; 8]);
}

#[test]
fn byte_buffers_zeroize_to_empty_twice() {
    let mut sized = ZeroizeBytesArray::<4>::new();
    sized.set(vec![1, 2, 3]).unwrap();
    sized.zeroize();
    assert!(sized.expose().is_empty());
    sized.zeroize();
    assert!(sized.expose().is_empty());

    let mut unsized_buffer = ZeroizeBytes::new();
    unsized_buffer.set(vec![5, 6]);
    unsized_buffer.zeroize();
    assert!(unsized_buffer.expose().is_empty());
    unsized_buffer.zeroize();
    assert!(unsized_buffer.expose().is_empty());
}

#[test]
fn array_accessors() {
    let mut secret = ZeroizeArray::<4>::zeroed();
    assert_eq!(secret.expose(), [0u8; 4]);
    secret.fill_from_slice([1, 2, 3, 4]).insert(2, 9);
    assert_eq!(secret.expose(), [1, 2, 9, 4]);
    assert_eq!(secret.expose_borrowed(), &[1, 2, 9, 4]);
    let copy = secret.clone();
    let moved = secret.own();
    assert_eq!(copy.expose(), moved.expose());
}

#[test]
fn random_secrets_have_the_asked_length_and_differ() {
    let a = ZeroizeArray::<32>::csprng();
    let b = ZeroizeArray::<32>::csprng();
    assert_ne!(a.expose(), b.expose());
    let sized = ZeroizeBytesArray::<32>::csprng();
    assert_eq!(sized.expose().len(), 32);
    assert!(sized.chacha_key().is_ok());
    let unsized_buffer = ZeroizeBytes::csprng::<20>();
    assert_eq!(unsized_buffer.expose().len(), 20);
    assert!(matches!(unsized_buffer.chacha_key(), Err(SecretError::InvalidKeyLength)));
}

#[test]
fn set_replaces_rather_than_appends() {
    let mut sized = ZeroizeBytesArray::<2>::with_additional_capacity(1);
    sized.set(vec![1, 2]).unwrap();
    sized.set(vec![3]).unwrap();
    assert_eq!(sized.expose().as_slice(), &[3u8][..]);
    assert!(matches!(sized.set(vec![0, 0, 0, 0]), Err(SecretError::BufferExhausted)));
    assert_eq!(sized.expose().as_slice(), &[3u8][..]);
    assert_eq!(sized.clone().expose().as_slice(), &[3u8][..]);

    let mut unsized_buffer = ZeroizeBytes::new_with_capacity(4);
    unsized_buffer.set(vec![1, 2]).set(vec![7, 7, 7, 7, 7, 7]);
    assert_eq!(unsized_buffer.expose().as_slice(), &[7u8; 6][..]);
    assert_eq!(unsized_buffer.clone().expose().len(), 6);
    assert!(matches!(unsized_buffer.chacha_key(), Err(SecretError::InvalidKeyLength)));
}

#[test]
fn staged_bytes_are_moved_and_wiped() {
    let mut staged = [1u8, 2, 3, 4];
    let secret = ZeroizeArray::from_staged(&mut staged);
    assert_eq!(secret.expose(), [1, 2, 3, 4]);
    assert_eq!(staged, [0u8; 4]);

    let mut staged = [5u8, 6, 7];
    let sized = ZeroizeBytesArray::<3>::from_staged(&mut staged);
    assert_eq!(sized.expose().as_slice(), &[5u8, 6, 7][..]);
    assert!(sized.expose().capacity() >= 3);
    assert_eq!(staged, [0u8; 3]);

    let mut staged = [8u8, 9];
    let unsized_buffer = ZeroizeBytes::from_staged(&mut staged);
    assert_eq!(unsized_buffer.expose().as_slice(), &[8u8, 9][..]);
    assert_eq!(staged, [0u8; 2]);
}

#[test]
fn staged_nonce_becomes_the_cell_nonce() {
    let mut staged = [7u8; 24];
    let mut store = EncryptedMem::<16>::with_staged_nonce(&mut staged, 4);
    assert_eq!(store.nonce(), [7u8; 24]);
    assert_eq!(staged, [0u8; 24]);
    assert!(store.ciphertext().expose().is_empty());
    assert!(store.ciphertext().expose().capacity() >= 16 + TAG_LENGTH + 4);
    let key = fresh_key();
    store
        .encrypt(&ZeroizeArray::new([1u8; 16]), key.chacha_key().unwrap())
        .unwrap();
    let mut staged = [7u8; 24];
    let mut twin = EncryptedMem::<16>::with_staged_nonce(&mut staged, 0);
    twin.encrypt(&ZeroizeArray::new([1u8; 16]), key.chacha_key().unwrap())
        .unwrap();
    assert_eq!(store.ciphertext().expose(), twin.ciphertext().expose());
}

#[test]
fn never_encrypted_cell_fails_authentication() {
    let key = fresh_key();
    let mut store = EncryptedMem::<32>::new();
    let r = store.decrypt(key.chacha_key().unwrap());
    assert!(matches!(r, Err(SecretError::AuthenticationFailure)));
}

#[test]
fn reserved_room_of_unsized_buffer() {
    let buffer = ZeroizeBytes::new_with_capacity(40);
    assert!(buffer.expose().is_empty());
    assert!(buffer.expose().capacity() >= 40);
    assert_eq!(MAX_MESSAGE_LENGTH, 64 * (u32::MAX as u64 - 1));
}
