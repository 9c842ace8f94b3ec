//! The feeds that the relay follows, each with the chat channel that receives
//! its entries. Each channel id is read from a variable `CHANNEL_ID_{n}`.

use vstd::prelude::*;

use crate::number::{decimal_nat, decimal_u64, parse_u64, parse_u64_spec, ParseIntErrorKind};
use crate::str_map::StrMap;
use crate::text::string_of;

verus! {

/// Status updates of Roberts Space Industries (`CHANNEL_ID_1`).
pub open spec fn rsi_status_feed() -> Seq<char> {
    "https://status.robertsspaceindustries.com/index.xml"@
}

/// Arch Linux package updates (`CHANNEL_ID_2`).
pub open spec fn arch_packages_feed() -> Seq<char> {
    "https://archlinux.org/feeds/packages/"@
}

/// NASA JPL news (`CHANNEL_ID_3`).
pub open spec fn nasa_jpl_feed() -> Seq<char> {
    "https://www.nasa.gov/centers-and-facilities/jpl/feed/"@
}

/// Why the feed configuration cannot be loaded.
#[derive(Clone, Copy, Debug, PartialEq, Eq, Structural)]
pub enum ConfigError {
    /// The variable `CHANNEL_ID_{index}` is not set.
    MissingVar { index: u8 },
    /// The variable `CHANNEL_ID_{index}` is not an unsigned integer.
    InvalidChannelId { index: u8, kind: ParseIntErrorKind },
}

/// The name of the variable that holds channel id number `index`.
pub open spec fn var_name(index: u8) -> Seq<char> {
    "CHANNEL_ID_"@ + decimal_nat(index as nat)
}

impl ConfigError {
    /// The text of the error.
    pub open spec fn spec_message(self) -> Seq<char> {
        match self {
            ConfigError::MissingVar { index } => "Expected "@ + var_name(index) + " in .secrets"@,
            ConfigError::InvalidChannelId { index, kind } => "Failed to parse "@ + var_name(index)
                + ": "@ + kind.spec_description(),
        }
    }

    /// The text of the error: `Expected CHANNEL_ID_{n} in .secrets` for a
    /// missing variable, `Failed to parse CHANNEL_ID_{n}: {reason}` for one
    /// that is not a number.
    pub fn message(&self) -> (s: String)
        ensures
            s@ == self.spec_message(),
    {
        match self {
            ConfigError::MissingVar { index } => {
                let mut s = "Expected ".to_owned();
                s.append(var_name_string(*index).as_str());
                s.append(" in .secrets");
                s
            },
            ConfigError::InvalidChannelId { index, kind } => {
                let mut s = "Failed to parse ".to_owned();
                s.append(var_name_string(*index).as_str());
                s.append(": ");
                s.append(kind.description().as_str());
                s
            },
        }
    }
}

/// The name of the variable that holds channel id number `index`.
pub fn var_name_string(index: u8) -> (s: String)
    ensures
        s@ == var_name(index),
{
    let mut s = "CHANNEL_ID_".to_owned();
    s.append(string_of(&decimal_u64(index as u64)).as_str());
    s
}

/// The channel id that variable number `index` gives, where its value is `var`.
pub open spec fn spec_channel_id(index: u8, var: Option<Seq<char>>) -> Result<int, ConfigError> {
    match var {
        None => Err(ConfigError::MissingVar { index }),
        Some(s) => match parse_u64_spec(s) {
            Ok(n) => Ok(n),
            Err(kind) => Err(ConfigError::InvalidChannelId { index, kind }),
        },
    }
}

/// The text of an optional string.
pub open spec fn opt_text(s: Option<String>) -> Option<Seq<char>> {
    match s {
        Some(t) => Some(t@),
        None => None,
    }
}

/// The channel id that variable number `index` gives, where its value is `var`.
pub fn channel_id(index: u8, var: &Option<String>) -> (res: Result<u64, ConfigError>)
    ensures
        match res {
            Ok(n) => spec_channel_id(index, opt_text(*var)) == Ok::<int, ConfigError>(n as int),
            Err(e) => spec_channel_id(index, opt_text(*var)) == Err::<int, ConfigError>(e),
        },
        res matches Ok(n) ==> (var matches Some(s) && parse_u64_spec(s@) == Ok::<
            int,
            ParseIntErrorKind,
        >(n as int)),
{
    match var {
        None => Err(ConfigError::MissingVar { index }),
        Some(s) => match parse_u64(s.as_str()) {
            Ok(n) => Ok(n),
            Err(kind) => Err(ConfigError::InvalidChannelId { index, kind }),
        },
    }
}

/// The feed table for the values `var1`, `var2`, `var3` of the variables
/// `CHANNEL_ID_1` to `CHANNEL_ID_3`. The variables are read in that order and
/// the first that is missing or not a number gives the error. Otherwise the
/// table maps the three feeds, in that order, to their channel ids.
pub fn load_feeds_from(var1: &Option<String>, var2: &Option<String>, var3: &Option<String>) -> (res:
    Result<StrMap<u64>, ConfigError>)
    ensures
        res is Ok <==> (spec_channel_id(1, opt_text(*var1)) is Ok && spec_channel_id(
            2,
            opt_text(*var2),
        ) is Ok && spec_channel_id(3, opt_text(*var3)) is Ok),
        res matches Ok(feeds) ==> feeds.pairs() == seq![
            (rsi_status_feed(), spec_channel_id(1, opt_text(*var1))->Ok_0 as u64),
            (arch_packages_feed(), spec_channel_id(2, opt_text(*var2))->Ok_0 as u64),
            (nasa_jpl_feed(), spec_channel_id(3, opt_text(*var3))->Ok_0 as u64),
        ],
        res matches Err(e) ==> {
            ||| spec_channel_id(1, opt_text(*var1)) == Err::<int, ConfigError>(e)
            ||| spec_channel_id(1, opt_text(*var1)) is Ok && spec_channel_id(2, opt_text(*var2))
                == Err::<int, ConfigError>(e)
            ||| spec_channel_id(1, opt_text(*var1)) is Ok && spec_channel_id(2, opt_text(*var2))
                is Ok && spec_channel_id(3, opt_text(*var3)) == Err::<int, ConfigError>(e)
        },
{
    proof {
        reveal_strlit("https://status.robertsspaceindustries.com/index.xml");
        reveal_strlit("https://archlinux.org/feeds/packages/");
        reveal_strlit("https://www.nasa.gov/centers-and-facilities/jpl/feed/");
        assert(rsi_status_feed().len() != arch_packages_feed().len());
        assert(rsi_status_feed().len() != nasa_jpl_feed().len());
        assert(arch_packages_feed().len() != nasa_jpl_feed().len());
    }
    let mut feeds: StrMap<u64> = StrMap::new();
    let id1 = channel_id(1, var1)?;
    feeds.insert("https://status.robertsspaceindustries.com/index.xml".to_owned(), id1);
    let id2 = channel_id(2, var2)?;
    feeds.insert("https://archlinux.org/feeds/packages/".to_owned(), id2);
    let id3 = channel_id(3, var3)?;
    feeds.insert("https://www.nasa.gov/centers-and-facilities/jpl/feed/".to_owned(), id3);
    Ok(feeds)
}

/// A variable's channel id is the number its text denotes, whole: a set
/// variable gives exactly what `u64::from_str` reads from it, and its error
/// otherwise; an unset one is missing.
pub proof fn lemma_channel_id_is_parsed_number(index: u8, var: Option<Seq<char>>)
    ensures
        var is None ==> spec_channel_id(index, var) == Err::<int, ConfigError>(
            ConfigError::MissingVar { index },
        ),
        var matches Some(s) ==> (parse_u64_spec(s) matches Ok(n) ==> spec_channel_id(index, var)
            == Ok::<int, ConfigError>(n)),
        var matches Some(s) ==> (parse_u64_spec(s) matches Err(kind) ==> spec_channel_id(
            index,
            var,
        ) == Err::<int, ConfigError>(ConfigError::InvalidChannelId { index, kind })),
        spec_channel_id(index, var) matches Ok(n) ==> (var matches Some(s) && parse_u64_spec(s)
            == Ok::<int, ParseIntErrorKind>(n)),
{
}

/// Every `u64` written in base ten is read back as the channel id it is: a
/// variable holding the decimal text of `n` gives channel `n`.
pub proof fn lemma_channel_id_reads_decimal(index: u8, n: u64)
    ensures
        spec_channel_id(index, Some(decimal_nat(n as nat))) == Ok::<int, ConfigError>(n as int),
{
    crate::number::lemma_parse_u64_inverts_decimal(n);
}

} // verus!
