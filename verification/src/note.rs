//! What an invocation reports for its log as it proceeds.

use crate::address::{base58_text, Address};
use vstd::prelude::*;
use vstd::string::StringExecFns;

verus! {

/// One line for the log of the invocation.
#[derive(Clone, Copy, Debug, PartialEq, Eq)]
pub enum Note {
    /// The first co-signer was refused.
    UnapprovedAdmin,
    /// The second co-signer was refused.
    UnapprovedSecond,
    /// The mint account is about to be created.
    CreatingMint,
    /// The mint account is about to be stamped as a token class.
    InitializingMint,
    /// The holding account is about to be created.
    CreatingHolding,
    /// One unit is about to be minted into the holding account.
    Minting,
    /// The address of the mint that the sub-operation concerns.
    Mint(Address),
    /// The address of the holding account that the sub-operation concerns.
    Holding(Address),
    /// All four sub-operations succeeded.
    Completed,
}

/// The fixed words of a log line.
pub open spec fn label_text(note: Note) -> Seq<char> {
    match note {
        Note::UnapprovedAdmin => "Unapproved Admin/Mint Auth"@,
        Note::UnapprovedSecond => "Unapproved Second Signer"@,
        Note::CreatingMint => "Creating mint account..."@,
        Note::InitializingMint => "Initializing mint account..."@,
        Note::CreatingHolding => "Creating token account..."@,
        Note::Minting => "Minting token to token account..."@,
        Note::Mint(_) => "Mint: "@,
        Note::Holding(_) => "Token Address: "@,
        Note::Completed => "Token mint process completed successfully."@,
    }
}

/// The address that a log line names, if it names one.
pub open spec fn named_address(note: Note) -> Option<Address> {
    match note {
        Note::Mint(mint) => Some(mint),
        Note::Holding(holding) => Some(holding),
        _ => None,
    }
}

/// The text of a log line: its fixed words, then the address it names in
/// base58.
pub open spec fn note_text(note: Note) -> Seq<char> {
    match named_address(note) {
        Some(address) => label_text(note) + base58_text(address@),
        None => label_text(note),
    }
}

impl Note {
    /// The fixed words of the line.
    pub fn label(&self) -> (label: &'static str)
        ensures
            label@ == label_text(*self),
    {
        match self {
            Note::UnapprovedAdmin => "Unapproved Admin/Mint Auth",
            Note::UnapprovedSecond => "Unapproved Second Signer",
            Note::CreatingMint => "Creating mint account...",
            Note::InitializingMint => "Initializing mint account...",
            Note::CreatingHolding => "Creating token account...",
            Note::Minting => "Minting token to token account...",
            Note::Mint(_) => "Mint: ",
            Note::Holding(_) => "Token Address: ",
            Note::Completed => "Token mint process completed successfully.",
        }
    }

    /// The address that the line names, if it names one.
    pub fn address(&self) -> (address: Option<Address>)
        ensures
            address == named_address(*self),
    {
        match self {
            Note::Mint(mint) => Some(*mint),
            Note::Holding(holding) => Some(*holding),
            _ => None,
        }
    }

    /// The line as text.
    pub fn render(&self) -> (line: String)
        ensures
            line@ == note_text(*self),
    {
        let label = String::from_str(self.label());
        match self.address() {
            Some(address) => {
                let key = address.text();
                label.concat(key.as_str())
            },
            None => label,
        }
    }
}

} // verus!
