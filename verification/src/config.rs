//! Configuration: runtime settings and the fixed output format.

use vstd::prelude::*;
use vstd::string::*;

verus! {

/// Default title for the report header.
pub const DEFAULT_TITLE: &'static str = "SHAUGHNESSY V DEVELOPMENT INC.";

/// Default subtitle for the report header.
pub const DEFAULT_SUBTITLE: &'static str = "TR-300 MACHINE REPORT";

/// Minimum width for the label column.
pub const MIN_LABEL_WIDTH: usize = 5;

/// Maximum width for the label column.
pub const MAX_LABEL_WIDTH: usize = 13;

/// Minimum width for the data column.
pub const MIN_DATA_WIDTH: usize = 20;

/// Maximum width for the data column.
pub const MAX_DATA_WIDTH: usize = 32;

/// Borders and padding overhead (two side borders, one divider, four
/// padding spaces).
pub const BORDERS_PADDING: usize = 7;

/// Output format options.
#[derive(Debug, Clone, Copy, PartialEq, Eq, Structural)]
pub enum OutputFormat {
    Table,
    Json,
}

/// Application configuration.
#[derive(Debug, Clone)]
pub struct Config {
    /// Whether to use Unicode box-drawing characters (false = ASCII).
    pub use_unicode: bool,
    /// Whether to use colors in output.
    pub use_colors: bool,
    /// Custom title (overrides the default).
    pub title: Option<String>,
    /// Custom subtitle (overrides the default).
    pub subtitle: Option<String>,
    /// Whether to show network information.
    pub show_network: bool,
    /// Whether to show disk information.
    pub show_disks: bool,
    /// Output width (0 = auto-detect).
    pub width: usize,
    /// Whether to use compact mode.
    pub compact: bool,
    /// Output format.
    pub format: OutputFormat,
}

impl Default for Config {
    /// The default configuration: Unicode, colors, every section shown,
    /// auto width, table output.
    fn default() -> (r: Self)
        ensures
            r.use_unicode && r.use_colors && r.title is None && r.subtitle is None
                && r.show_network && r.show_disks && r.width == 0 && !r.compact && r.format
                == OutputFormat::Table,
    {
        Config {
            use_unicode: true,
            use_colors: true,
            title: None,
            subtitle: None,
            show_network: true,
            show_disks: true,
            width: 0,
            compact: false,
            format: OutputFormat::Table,
        }
    }
}

/// The box-drawing character set in use.
#[derive(Debug, Clone, Copy)]
pub struct BoxChars {
    pub top_left: char,
    pub top_right: char,
    pub bottom_left: char,
    pub bottom_right: char,
    pub horizontal: char,
    pub vertical: char,
    pub t_down: char,
    pub t_up: char,
    pub t_right: char,
    pub t_left: char,
    pub cross: char,
}

impl BoxChars {
    /// Unicode box-drawing characters.
    pub fn unicode() -> (r: Self)
        ensures
            r == BoxChars::spec_unicode(),
    {
        BoxChars {
            top_left: '┌',
            top_right: '┐',
            bottom_left: '└',
            bottom_right: '┘',
            horizontal: '─',
            vertical: '│',
            t_down: '┬',
            t_up: '┴',
            t_right: '├',
            t_left: '┤',
            cross: '┼',
        }
    }

    /// The Unicode character set, as a value.
    pub open spec fn spec_unicode() -> BoxChars {
        BoxChars {
            top_left: '┌',
            top_right: '┐',
            bottom_left: '└',
            bottom_right: '┘',
            horizontal: '─',
            vertical: '│',
            t_down: '┬',
            t_up: '┴',
            t_right: '├',
            t_left: '┤',
            cross: '┼',
        }
    }

    /// ASCII fallback characters.
    pub fn ascii() -> (r: Self)
        ensures
            r == BoxChars::spec_ascii(),
    {
        BoxChars {
            top_left: '+',
            top_right: '+',
            bottom_left: '+',
            bottom_right: '+',
            horizontal: '-',
            vertical: '|',
            t_down: '+',
            t_up: '+',
            t_right: '+',
            t_left: '+',
            cross: '+',
        }
    }

    /// The ASCII character set, as a value.
    pub open spec fn spec_ascii() -> BoxChars {
        BoxChars {
            top_left: '+',
            top_right: '+',
            bottom_left: '+',
            bottom_right: '+',
            horizontal: '-',
            vertical: '|',
            t_down: '+',
            t_up: '+',
            t_right: '+',
            t_left: '+',
            cross: '+',
        }
    }
}

impl Config {
    /// Create a new configuration with the defaults.
    pub fn new() -> (r: Self)
        ensures
            r.use_unicode && r.use_colors && r.title is None && r.subtitle is None
                && r.show_network && r.show_disks && r.width == 0 && !r.compact && r.format
                == OutputFormat::Table,
    {
        Default::default()
    }

    /// The title to display: the custom one, or the default.
    pub fn title(&self) -> (r: &str)
        ensures
            r@ == (match self.title {
                Some(t) => t@,
                None => DEFAULT_TITLE@,
            }),
    {
        match &self.title {
            Some(t) => t.as_str(),
            None => DEFAULT_TITLE,
        }
    }

    /// The subtitle to display: the custom one, or the default.
    pub fn subtitle(&self) -> (r: &str)
        ensures
            r@ == (match self.subtitle {
                Some(t) => t@,
                None => DEFAULT_SUBTITLE@,
            }),
    {
        match &self.subtitle {
            Some(t) => t.as_str(),
            None => DEFAULT_SUBTITLE,
        }
    }

    /// The box-drawing characters the Unicode setting selects.
    pub fn box_chars(&self) -> (r: BoxChars)
        ensures
            self.use_unicode ==> r == BoxChars::spec_unicode(),
            !self.use_unicode ==> r == BoxChars::spec_ascii(),
    {
        if self.use_unicode {
            BoxChars::unicode()
        } else {
            BoxChars::ascii()
        }
    }

    /// The bar-graph characters (filled, empty) the Unicode setting
    /// selects.
    pub fn bar_chars(&self) -> (r: (char, char))
        ensures
            self.use_unicode ==> r == ('█', '░'),
            !self.use_unicode ==> r == ('#', '.'),
    {
        if self.use_unicode {
            ('█', '░')
        } else {
            ('#', '.')
        }
    }

    /// Clamp the content widths into the fixed column-width bounds.
    pub fn calculate_widths(&self, max_label: usize, max_data: usize) -> (r: (usize, usize))
        ensures
            r.0 == (if max_label < MIN_LABEL_WIDTH {
                MIN_LABEL_WIDTH as int
            } else if max_label > MAX_LABEL_WIDTH {
                MAX_LABEL_WIDTH as int
            } else {
                max_label as int
            }),
            r.1 == (if max_data < MIN_DATA_WIDTH {
                MIN_DATA_WIDTH as int
            } else if max_data > MAX_DATA_WIDTH {
                MAX_DATA_WIDTH as int
            } else {
                max_data as int
            }),
            MIN_LABEL_WIDTH <= r.0 <= MAX_LABEL_WIDTH,
            MIN_DATA_WIDTH <= r.1 <= MAX_DATA_WIDTH,
    {
        let label_width = if max_label < MIN_LABEL_WIDTH {
            MIN_LABEL_WIDTH
        } else if max_label > MAX_LABEL_WIDTH {
            MAX_LABEL_WIDTH
        } else {
            max_label
        };
        let data_width = if max_data < MIN_DATA_WIDTH {
            MIN_DATA_WIDTH
        } else if max_data > MAX_DATA_WIDTH {
            MAX_DATA_WIDTH
        } else {
            max_data
        };
        (label_width, data_width)
    }

    /// The total table width for the given column widths.
    pub fn table_width(&self, label_width: usize, data_width: usize) -> (r: usize)
        requires
            label_width + data_width + BORDERS_PADDING <= usize::MAX,
        ensures
            r == label_width + data_width + BORDERS_PADDING,
    {
        label_width + data_width + BORDERS_PADDING
    }

    /// Switch to ASCII characters.
    pub fn with_ascii(self) -> (r: Self)
        ensures
            r == (Config { use_unicode: false, ..self }),
    {
        Config { use_unicode: false, ..self }
    }

    /// Set the output width, when one is given.
    pub fn with_width(self, width: Option<usize>) -> (r: Self)
        ensures
            width matches Some(w) ==> r == (Config { width: w, ..self }),
            width is None ==> r == self,
    {
        match width {
            Some(w) => Config { width: w, ..self },
            None => self,
        }
    }

    /// Set compact mode.
    pub fn with_compact(self, compact: bool) -> (r: Self)
        ensures
            r == (Config { compact, ..self }),
    {
        Config { compact, ..self }
    }

    /// Set color mode.
    pub fn with_colors(self, colors: bool) -> (r: Self)
        ensures
            r == (Config { use_colors: colors, ..self }),
    {
        Config { use_colors: colors, ..self }
    }

    /// Set a custom title.
    pub fn with_title(self, title: String) -> (r: Self)
        ensures
            r == (Config { title: Some(title), ..self }),
    {
        Config { title: Some(title), ..self }
    }

    /// Hide the network section.
    pub fn without_network(self) -> (r: Self)
        ensures
            r == (Config { show_network: false, ..self }),
    {
        Config { show_network: false, ..self }
    }

    /// Hide the disk section.
    pub fn without_disks(self) -> (r: Self)
        ensures
            r == (Config { show_disks: false, ..self }),
    {
        Config { show_disks: false, ..self }
    }

    /// Switch to JSON output.
    pub fn with_json(self) -> (r: Self)
        ensures
            r == (Config { format: OutputFormat::Json, ..self }),
    {
        Config { format: OutputFormat::Json, ..self }
    }
}

} // verus!
