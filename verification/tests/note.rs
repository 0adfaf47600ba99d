use mint_nft::address::Address;
use mint_nft::note::Note;

#[test]
fn fixed_lines_render_as_written() {
    assert_eq!(Note::UnapprovedAdmin.render(), "Unapproved Admin/Mint Auth");
    assert_eq!(Note::UnapprovedSecond.render(), "Unapproved Second Signer");
    assert_eq!(Note::CreatingMint.render(), "Creating mint account...");
    assert_eq!(Note::InitializingMint.render(), "Initializing mint account...");
    assert_eq!(Note::CreatingHolding.render(), "Creating token account...");
    assert_eq!(Note::Minting.render(), "Minting token to token account...");
    assert_eq!(Note::Completed.render(), "Token mint process completed successfully.");
}

#[test]
fn address_lines_render_in_base58() {
    let token = Address::new(spl_token::id().to_bytes());
    assert_eq!(Note::Mint(token).render(), "Mint: TokenkegQfeZyiNwAJbNbGKPFXCWuBvf9Ss623VQ5DA");
    assert_eq!(
        Note::Holding(Address::new([0; 32])).render(),
        "Token Address: 11111111111111111111111111111111"
    );
}

#[test]
fn label_is_the_fixed_part() {
    assert_eq!(Note::Mint(Address::new([4; 32])).label(), "Mint: ");
    assert_eq!(Note::Holding(Address::new([4; 32])).label(), "Token Address: ");
    assert_eq!(Note::Completed.label(), "Token mint process completed successfully.");
    assert_eq!(Note::UnapprovedAdmin.label(), Note::UnapprovedAdmin.render());
}

#[test]
fn address_is_the_one_named() {
    let key = Address::new([4; 32]);
    assert_eq!(Note::Mint(key).address(), Some(key));
    assert_eq!(Note::Holding(key).address(), Some(key));
    assert_eq!(Note::CreatingMint.address(), None);
    assert_eq!(Note::Completed.address(), None);
}
