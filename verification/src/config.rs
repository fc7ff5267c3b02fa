//! The configuration record that drives a scan, together with its builder.

use vstd::prelude::*;

verus! {

/// Control how the offset within the file for each string will be displayed,
/// if desired.
#[derive(Debug, Clone, Copy, PartialEq, Eq, Structural)]
pub enum LocationRadix {
    Octal,
    Decimal,
    Hex,
}

/// Control the encoding of the strings that are found: the width of one code
/// unit in bytes and, for multi-byte widths, the byte order.
#[derive(Debug, Clone, Copy, PartialEq, Eq, Structural)]
pub enum Encoding {
    /// 7-bit byte characters
    SevenBit,
    /// 8-bit byte characters
    EightBit,
    /// 16-bit big endian
    SixteenBitBE,
    /// 16-bit little endian
    SixteenBitLE,
    /// 32-bit big endian
    ThirtyTwoBitBE,
    /// 32-bit little endian
    ThirtyTwoBitLE,
}

/// Controls how code units beyond plain printable ASCII are displayed.
#[derive(Debug, Clone, Copy, PartialEq, Eq, Structural)]
pub enum UnicodeDisplay {
    /// Rely on the setting of the encoding: each code unit is rendered as the
    /// Unicode scalar value it denotes.
    RelyOnEncoding,
    /// Treats anything outside strict printable ASCII as a non-graphic,
    /// invalid character, rendered as a placeholder.
    Invalid,
    /// Displays in the current locale. Locale tables are an external
    /// collaborator concern; the core falls back to the scalar rendering.
    Locale,
    /// Displays non-ASCII values as backslash escape sequences.
    Escape,
    /// Displays non-ASCII values as hex sequences enclosed between `<` `>`.
    Hex,
    /// Display in highlight, if the output target supports it. Target
    /// support is an external concern; the core falls back to the scalar
    /// rendering.
    Highlight,
}

/// The number base denoted by a location radix.
pub open spec fn radix_base(r: LocationRadix) -> int {
    match r {
        LocationRadix::Octal => 8,
        LocationRadix::Decimal => 10,
        LocationRadix::Hex => 16,
    }
}

/// The width of one code unit, in bytes, under the given encoding.
pub open spec fn code_unit_width(e: Encoding) -> int {
    match e {
        Encoding::SevenBit => 1,
        Encoding::EightBit => 1,
        Encoding::SixteenBitBE => 2,
        Encoding::SixteenBitLE => 2,
        Encoding::ThirtyTwoBitBE => 4,
        Encoding::ThirtyTwoBitLE => 4,
    }
}

/// The minimum run length actually enforced: a configured minimum of 0 is
/// treated as 1, since a zero-length run has no offset to report.
pub open spec fn effective_min_len(m: u16) -> int {
    if m == 0 {
        1
    } else {
        m as int
    }
}

/// The width of one code unit, in bytes, as an executable value.
pub fn unit_width(e: Encoding) -> (w: usize)
    ensures
        w == code_unit_width(e),
{
    match e {
        Encoding::SevenBit => 1,
        Encoding::EightBit => 1,
        Encoding::SixteenBitBE => 2,
        Encoding::SixteenBitLE => 2,
        Encoding::ThirtyTwoBitBE => 4,
        Encoding::ThirtyTwoBitLE => 4,
    }
}

impl Default for Encoding {
    fn default() -> (r: Self)
        ensures
            r == Encoding::SevenBit,
    {
        Encoding::SevenBit
    }
}

impl Default for UnicodeDisplay {
    fn default() -> (r: Self)
        ensures
            r == UnicodeDisplay::RelyOnEncoding,
    {
        UnicodeDisplay::RelyOnEncoding
    }
}

#[derive(Debug, Clone, PartialEq, Eq)]
pub struct Config {
    /// Only scan data sections in file; a pass-through flag applied by the
    /// external file-format layer, the scan itself is identical either way.
    pub data_only: bool,
    /// Print the file name before each string.
    pub print_file_name: bool,
    /// Minimum displayable character sequence length.
    pub min_seq_len: u16,
    /// Location radix; `None` omits the offset from each record.
    pub loc_radix: Option<LocationRadix>,
    /// Include whitespace as valid string characters.
    pub whitespace: bool,
    /// Character encoding.
    pub char_encoding: Encoding,
    /// Unicode display.
    pub unicode_display: UnicodeDisplay,
    /// String used to separate strings in output; empty means each record is
    /// terminated by a newline.
    pub separator: String,
}

/// The default configuration: scan everything under 7-bit ASCII, require
/// runs of at least 4 units, print bare text with no offset or file name.
pub open spec fn is_default_config(c: Config) -> bool {
    &&& c.data_only == false
    &&& c.print_file_name == false
    &&& c.min_seq_len == 4
    &&& c.loc_radix is None
    &&& c.whitespace == false
    &&& c.char_encoding == Encoding::SevenBit
    &&& c.unicode_display == UnicodeDisplay::RelyOnEncoding
    &&& c.separator@ == Seq::<char>::empty()
}

impl Default for Config {
    fn default() -> (r: Self)
        ensures
            is_default_config(r),
    {
        Config {
            data_only: false,
            print_file_name: false,
            min_seq_len: 4,
            loc_radix: None,
            whitespace: false,
            char_encoding: Encoding::SevenBit,
            unicode_display: UnicodeDisplay::RelyOnEncoding,
            separator: String::new(),
        }
    }
}

#[derive(Debug)]
pub struct ConfigBuilder {
    config: Config,
}

impl Default for ConfigBuilder {
    fn default() -> (r: Self)
        ensures
            is_default_config(r.current()),
    {
        ConfigBuilder { config: Config::default() }
    }
}

impl ConfigBuilder {
    /// The configuration as built so far.
    pub closed spec fn current(self) -> Config {
        self.config
    }

    pub fn data_only(self, data_only: bool) -> (r: Self)
        ensures
            r.current() == (Config { data_only, ..self.current() }),
    {
        let mut this = self;
        this.config.data_only = data_only;
        this
    }

    pub fn print_file_name(self, print_file_name: bool) -> (r: Self)
        ensures
            r.current() == (Config { print_file_name, ..self.current() }),
    {
        let mut this = self;
        this.config.print_file_name = print_file_name;
        this
    }

    pub fn min_seq_len(self, min_seq_len: u16) -> (r: Self)
        ensures
            r.current() == (Config { min_seq_len, ..self.current() }),
    {
        let mut this = self;
        this.config.min_seq_len = min_seq_len;
        this
    }

    pub fn loc_radix(self, loc_radix: LocationRadix) -> (r: Self)
        ensures
            r.current() == (Config { loc_radix: Some(loc_radix), ..self.current() }),
    {
        let mut this = self;
        this.config.loc_radix = Some(loc_radix);
        this
    }

    pub fn whitespace(self, whitespace: bool) -> (r: Self)
        ensures
            r.current() == (Config { whitespace, ..self.current() }),
    {
        let mut this = self;
        this.config.whitespace = whitespace;
        this
    }

    pub fn char_encoding(self, char_encoding: Encoding) -> (r: Self)
        ensures
            r.current() == (Config { char_encoding, ..self.current() }),
    {
        let mut this = self;
        this.config.char_encoding = char_encoding;
        this
    }

    pub fn unicode_display(self, unicode_display: UnicodeDisplay) -> (r: Self)
        ensures
            r.current() == (Config { unicode_display, ..self.current() }),
    {
        let mut this = self;
        this.config.unicode_display = unicode_display;
        this
    }

    pub fn separator(self, separator: String) -> (r: Self)
        ensures
            r.current() == (Config { separator, ..self.current() }),
    {
        let mut this = self;
        this.config.separator = separator;
        this
    }

    pub fn build(self) -> (r: Config)
        ensures
            r == self.current(),
    {
        self.config
    }
}

} // verus!
