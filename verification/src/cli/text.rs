use vstd::prelude::*;

use crate::strutil::str_eq;

verus! {

/// The text-signing subcommands.
pub enum TextSubCommand {
    Sign(TextSignOpts),
    Verify(TextVerifyOpts),
    Generate(TextKeyGenerateOpts),
}

/// Options for signing: a message location, a key location, and the algorithm.
/// An input of `-` means standard input.
pub struct TextSignOpts {
    pub input: String,
    pub key: String,
    pub format: TextSignFormat,
}

/// Options for verification: as for signing, plus the textual signature.
pub struct TextVerifyOpts {
    pub input: String,
    pub key: String,
    pub format: TextSignFormat,
    pub sig: String,
}

/// Options for key generation: the algorithm and the directory to write to.
pub struct TextKeyGenerateOpts {
    pub format: TextSignFormat,
    pub output: String,
}

/// The two signature algorithms: a keyed hash with a 32-byte secret, and an
/// elliptic-curve signature with a 32-byte private / 32-byte public keypair.
#[derive(Debug, Clone, Copy, PartialEq, Eq, Structural)]
pub enum TextSignFormat {
    Blake3,
    Ed25519,
}

impl TextSignFormat {
    /// Parses the case-sensitive algorithm token; any other token is refused.
    pub fn from_str(s: &str) -> (r: Result<TextSignFormat, &'static str>)
        ensures
            s@ == "blake3"@ ==> r == Ok::<TextSignFormat, &'static str>(TextSignFormat::Blake3),
            s@ == "ed25519"@ ==> r == Ok::<TextSignFormat, &'static str>(TextSignFormat::Ed25519),
            r matches Err(e) ==> s@ != "blake3"@ && s@ != "ed25519"@ && e@ == "Invalid format"@,
            r == Ok::<TextSignFormat, &'static str>(TextSignFormat::Blake3) ==> s@ == "blake3"@,
            r == Ok::<TextSignFormat, &'static str>(TextSignFormat::Ed25519) ==> s@ == "ed25519"@,
    {
        proof {
            reveal_strlit("blake3");
            reveal_strlit("ed25519");
            assert("blake3"@.len() != "ed25519"@.len());
            assert("blake3"@ != "ed25519"@);
        }
        if str_eq(s, "blake3") {
            Ok(TextSignFormat::Blake3)
        } else if str_eq(s, "ed25519") {
            Ok(TextSignFormat::Ed25519)
        } else {
            Err("Invalid format")
        }
    }

    /// The token that [`TextSignFormat::from_str`] maps back to this format.
    pub fn as_str(&self) -> (r: &'static str)
        ensures
            *self == TextSignFormat::Blake3 ==> r@ == "blake3"@,
            *self == TextSignFormat::Ed25519 ==> r@ == "ed25519"@,
    {
        match self {
            TextSignFormat::Blake3 => "blake3",
            TextSignFormat::Ed25519 => "ed25519",
        }
    }
}

/// Value parser for the format argument of the text subcommands.
pub fn parse_format(format: &str) -> (r: Result<TextSignFormat, &'static str>)
    ensures
        format@ == "blake3"@ ==> r == Ok::<TextSignFormat, &'static str>(TextSignFormat::Blake3),
        format@ == "ed25519"@ ==> r == Ok::<TextSignFormat, &'static str>(
            TextSignFormat::Ed25519,
        ),
        r matches Err(e) ==> format@ != "blake3"@ && format@ != "ed25519"@ && e@
            == "Invalid format"@,
        r == Ok::<TextSignFormat, &'static str>(TextSignFormat::Blake3) ==> format@ == "blake3"@,
        r == Ok::<TextSignFormat, &'static str>(TextSignFormat::Ed25519) ==> format@
            == "ed25519"@,
{
    TextSignFormat::from_str(format)
}

} // verus!
