use message_buffer_resize::address::derive_buffer_address;
use message_buffer_resize::address::verify_buffer_address;
use message_buffer_resize::buffer::discriminator;
use message_buffer_resize::buffer::HEADER_LEN;
use message_buffer_resize::resize_buffer;
use message_buffer_resize::Address;
use message_buffer_resize::AdminSigner;
use message_buffer_resize::BufferAccount;
use message_buffer_resize::MessageBufferError;
use message_buffer_resize::ResizeBuffer;
use message_buffer_resize::Whitelist;

fn addr(b: u8) -> Address {
    Address { bytes: [b; 32] }
}

/// Searches for a bump byte whose derivation succeeds, as a client would.
fn find_buffer_address(auth: &Address, base: &Address, program: &Address) -> (Address, u8) {
    for bump in 0..=255u8 {
        if let Some(a) = derive_buffer_address(auth, base, bump, program) {
            return (a, bump);
        }
    }
    panic!("no bump yields a valid derivation");
}

fn make_buffer(key: Address, size: usize, lamports: u64) -> BufferAccount {
    let mut data = discriminator();
    while data.len() < size {
        data.push(0);
    }
    BufferAccount { key, lamports, data }
}

fn make_ctx(program_id: Address, admin_key: Address, admin_lamports: u64, allowed: Vec<Address>) -> ResizeBuffer {
    ResizeBuffer {
        program_id,
        whitelist: Whitelist { admin: admin_key, allowed_programs: allowed, bump: 254 },
        admin: AdminSigner { key: admin_key, lamports: admin_lamports },
    }
}

/// A whole valid call setup: context, account list, and the derivation inputs.
fn valid_setup(size: usize, buffer_lamports: u64, admin_lamports: u64) -> (ResizeBuffer, Vec<BufferAccount>, Address, Address, u8) {
    let program = addr(1);
    let admin_key = addr(2);
    let auth = addr(3);
    let base = addr(4);
    let (buffer_key, bump) = find_buffer_address(&auth, &base, &program);
    let ctx = make_ctx(program, admin_key, admin_lamports, vec![addr(9), auth]);
    let accounts = vec![make_buffer(buffer_key, size, buffer_lamports)];
    (ctx, accounts, auth, base, bump)
}

#[test]
fn discriminator_exact_bytes() {
    assert_eq!(discriminator(), vec![25u8, 244, 3, 5, 225, 165, 29, 250]);
    assert_eq!(HEADER_LEN, 12);
}

#[test]
fn derivation_is_deterministic_and_not_an_input() {
    let program = addr(1);
    let auth = addr(3);
    let base = addr(4);
    let (key, bump) = find_buffer_address(&auth, &base, &program);
    let again = derive_buffer_address(&auth, &base, bump, &program).unwrap();
    assert_eq!(key, again);
    assert_ne!(key, auth);
    assert_ne!(key, base);
    assert_ne!(key, program);
    // another valid bump yields another address
    let mut other = None;
    for b in 0..=255u8 {
        if b == bump {
            continue;
        }
        if let Some(a) = derive_buffer_address(&auth, &base, b, &program) {
            other = Some(a);
            break;
        }
    }
    assert_ne!(key, other.unwrap());
}

#[test]
fn verify_accepts_derived_and_rejects_other_addresses() {
    let program = addr(1);
    let auth = addr(3);
    let base = addr(4);
    let (key, bump) = find_buffer_address(&auth, &base, &program);
    assert_eq!(verify_buffer_address(&auth, &base, bump, &key, &program), Ok(()));
    let mut wrong = key;
    wrong.bytes[5] = wrong.bytes[5].wrapping_add(1);
    assert_eq!(
        verify_buffer_address(&auth, &base, bump, &wrong, &program),
        Err(MessageBufferError::InvalidPDA)
    );
}

#[test]
fn growth_sets_exact_size_and_transfers_exact_shortfall() {
    // current 100, balance 0, target 500, minimum balance at 500 is 50:
    // exactly 50 moves from the admin, then the account is resized to 500.
    let (mut ctx, mut accounts, auth, base, bump) = valid_setup(100, 0, 80);
    let r = resize_buffer(&mut ctx, &mut accounts, &auth, &base, bump, 500, 50);
    assert_eq!(r, Ok(()));
    assert_eq!(accounts[0].data.len(), 500);
    assert_eq!(accounts[0].lamports, 50);
    assert_eq!(ctx.admin.lamports, 30);
    // the grown region is zero-filled and the header is untouched
    assert_eq!(&accounts[0].data[0..8], &discriminator()[..]);
    assert!(accounts[0].data[100..].iter().all(|b| *b == 0));
}

#[test]
fn resize_to_current_size_is_idempotent() {
    let (mut ctx, mut accounts, auth, base, bump) = valid_setup(300, 75, 10);
    let before = accounts[0].data.clone();
    let r1 = resize_buffer(&mut ctx, &mut accounts, &auth, &base, bump, 300, 60);
    assert_eq!(r1, Ok(()));
    let r2 = resize_buffer(&mut ctx, &mut accounts, &auth, &base, bump, 300, 60);
    assert_eq!(r2, Ok(()));
    assert_eq!(accounts[0].data, before);
    assert_eq!(accounts[0].lamports, 75);
    assert_eq!(ctx.admin.lamports, 10);
}

#[test]
fn unauthorized_program_leaves_account_unmodified() {
    let (mut ctx, mut accounts, _auth, base, bump) = valid_setup(200, 44, 10);
    let outsider = addr(77);
    let r = resize_buffer(&mut ctx, &mut accounts, &outsider, &base, bump, 500, 50);
    assert_eq!(r, Err(MessageBufferError::Unauthorized));
    assert_eq!(accounts[0].data.len(), 200);
    assert_eq!(accounts[0].lamports, 44);
    assert_eq!(ctx.admin.lamports, 10);
}

#[test]
fn signer_other_than_recorded_admin_is_unauthorized() {
    let (mut ctx, mut accounts, auth, base, bump) = valid_setup(200, 44, 10);
    ctx.admin.key = addr(66);
    let r = resize_buffer(&mut ctx, &mut accounts, &auth, &base, bump, 500, 50);
    assert_eq!(r, Err(MessageBufferError::Unauthorized));
    assert_eq!(accounts[0].data.len(), 200);
    assert_eq!(accounts[0].lamports, 44);
}

#[test]
fn mismatched_address_fails_without_transfer() {
    let (mut ctx, mut accounts, auth, base, bump) = valid_setup(200, 0, 100);
    accounts[0].key.bytes[0] = accounts[0].key.bytes[0].wrapping_add(1);
    let r = resize_buffer(&mut ctx, &mut accounts, &auth, &base, bump, 500, 50);
    assert_eq!(r, Err(MessageBufferError::InvalidPDA));
    assert_eq!(ctx.admin.lamports, 100);
    assert_eq!(accounts[0].lamports, 0);
    assert_eq!(accounts[0].data.len(), 200);
}

#[test]
fn growth_ceiling_boundary_is_exact() {
    // ceiling C = 10240: from 1000, a target of 1000 + C succeeds,
    // 1000 + C + 1 fails.
    let (mut ctx, mut accounts, auth, base, bump) = valid_setup(1000, 100, 10);
    let r_over = resize_buffer(&mut ctx, &mut accounts, &auth, &base, bump, 1000 + 10240 + 1, 20);
    assert_eq!(r_over, Err(MessageBufferError::TargetSizeDeltaExceeded));
    assert_eq!(accounts[0].data.len(), 1000);
    let r_edge = resize_buffer(&mut ctx, &mut accounts, &auth, &base, bump, 1000 + 10240, 20);
    assert_eq!(r_edge, Ok(()));
    assert_eq!(accounts[0].data.len(), 11240);
}

#[test]
fn shrink_succeeds_and_keeps_excess_balance() {
    // current 2000, balance 500, target 100: success, size 100, no refund.
    let (mut ctx, mut accounts, auth, base, bump) = valid_setup(2000, 500, 10);
    let r = resize_buffer(&mut ctx, &mut accounts, &auth, &base, bump, 100, 5);
    assert_eq!(r, Ok(()));
    assert_eq!(accounts[0].data.len(), 100);
    assert_eq!(accounts[0].lamports, 500);
    assert_eq!(ctx.admin.lamports, 10);
    assert_eq!(&accounts[0].data[0..8], &discriminator()[..]);
}

#[test]
fn underfunded_account_is_topped_up_even_at_same_size() {
    // size unchanged, but the minimum balance rose above the account's
    // balance: the shortfall still moves and the resize is a no-op.
    let (mut ctx, mut accounts, auth, base, bump) = valid_setup(400, 40, 200);
    let r = resize_buffer(&mut ctx, &mut accounts, &auth, &base, bump, 400, 100);
    assert_eq!(r, Ok(()));
    assert_eq!(accounts[0].data.len(), 400);
    assert_eq!(accounts[0].lamports, 100);
    assert_eq!(ctx.admin.lamports, 140);
}

#[test]
fn missing_buffer_account_is_reported() {
    let (mut ctx, _accounts, auth, base, bump) = valid_setup(200, 0, 100);
    let mut empty: Vec<BufferAccount> = Vec::new();
    let r = resize_buffer(&mut ctx, &mut empty, &auth, &base, bump, 500, 50);
    assert_eq!(r, Err(MessageBufferError::MessageBufferNotProvided));
}

#[test]
fn foreign_account_fails_discriminator_check() {
    let (mut ctx, mut accounts, auth, base, bump) = valid_setup(200, 0, 100);
    accounts[0].data[0] = accounts[0].data[0].wrapping_add(1);
    let r = resize_buffer(&mut ctx, &mut accounts, &auth, &base, bump, 500, 50);
    assert_eq!(r, Err(MessageBufferError::InvalidDiscriminator));
    assert_eq!(accounts[0].data.len(), 200);
}

#[test]
fn target_below_header_is_too_small() {
    let (mut ctx, mut accounts, auth, base, bump) = valid_setup(200, 0, 100);
    let r = resize_buffer(&mut ctx, &mut accounts, &auth, &base, bump, HEADER_LEN - 1, 50);
    assert_eq!(r, Err(MessageBufferError::MessageBufferTooSmall));
    assert_eq!(accounts[0].data.len(), 200);
    let r_edge = resize_buffer(&mut ctx, &mut accounts, &auth, &base, bump, HEADER_LEN, 0);
    assert_eq!(r_edge, Ok(()));
    assert_eq!(accounts[0].data.len(), HEADER_LEN as usize);
}

#[test]
fn insufficient_admin_funds_fail_the_transfer() {
    let (mut ctx, mut accounts, auth, base, bump) = valid_setup(100, 0, 49);
    let r = resize_buffer(&mut ctx, &mut accounts, &auth, &base, bump, 500, 50);
    assert_eq!(r, Err(MessageBufferError::FundingTransferFailed));
    assert_eq!(accounts[0].data.len(), 100);
    assert_eq!(accounts[0].lamports, 0);
    assert_eq!(ctx.admin.lamports, 49);
}

#[test]
fn only_the_first_auxiliary_account_is_resized() {
    let (mut ctx, mut accounts, auth, base, bump) = valid_setup(100, 0, 80);
    accounts.push(make_buffer(addr(50), 300, 7));
    let r = resize_buffer(&mut ctx, &mut accounts, &auth, &base, bump, 500, 50);
    assert_eq!(r, Ok(()));
    assert_eq!(accounts[0].data.len(), 500);
    assert_eq!(accounts[1].data.len(), 300);
    assert_eq!(accounts[1].lamports, 7);
}
