//! The read-only status snapshot the core exposes after each command; a
//! status-line component renders it independently.

use vstd::prelude::*;

verus! {

/// The character for one decimal digit.
pub open spec fn digit_char(d: nat) -> char {
    if d == 0 {
        '0'
    } else if d == 1 {
        '1'
    } else if d == 2 {
        '2'
    } else if d == 3 {
        '3'
    } else if d == 4 {
        '4'
    } else if d == 5 {
        '5'
    } else if d == 6 {
        '6'
    } else if d == 7 {
        '7'
    } else if d == 8 {
        '8'
    } else {
        '9'
    }
}

/// The decimal digits of a number, most significant first.
pub open spec fn decimal_chars(n: nat) -> Seq<char>
    decreases n,
{
    if n < 10 {
        seq![digit_char(n)]
    } else {
        decimal_chars(n / 10).push(digit_char(n % 10))
    }
}

/// One decimal digit as text.
fn digit_str(d: usize) -> (r: &'static str)
    requires
        d < 10,
    ensures
        r@ == seq![digit_char(d as nat)],
{
    match d {
        0 => {
            let s = "0";
            proof {
                reveal_strlit("0");
                assert(s@ =~= seq!['0']);
            }
            s
        },
        1 => {
            let s = "1";
            proof {
                reveal_strlit("1");
                assert(s@ =~= seq!['1']);
            }
            s
        },
        2 => {
            let s = "2";
            proof {
                reveal_strlit("2");
                assert(s@ =~= seq!['2']);
            }
            s
        },
        3 => {
            let s = "3";
            proof {
                reveal_strlit("3");
                assert(s@ =~= seq!['3']);
            }
            s
        },
        4 => {
            let s = "4";
            proof {
                reveal_strlit("4");
                assert(s@ =~= seq!['4']);
            }
            s
        },
        5 => {
            let s = "5";
            proof {
                reveal_strlit("5");
                assert(s@ =~= seq!['5']);
            }
            s
        },
        6 => {
            let s = "6";
            proof {
                reveal_strlit("6");
                assert(s@ =~= seq!['6']);
            }
            s
        },
        7 => {
            let s = "7";
            proof {
                reveal_strlit("7");
                assert(s@ =~= seq!['7']);
            }
            s
        },
        8 => {
            let s = "8";
            proof {
                reveal_strlit("8");
                assert(s@ =~= seq!['8']);
            }
            s
        },
        _ => {
            let s = "9";
            proof {
                reveal_strlit("9");
                assert(s@ =~= seq!['9']);
            }
            s
        },
    }
}

/// A number rendered as decimal text.
pub fn format_usize(n: usize) -> (r: String)
    ensures
        r@ == decimal_chars(n as nat),
    decreases n,
{
    if n < 10 {
        String::from_str(digit_str(n))
    } else {
        let mut r = format_usize(n / 10);
        r.append(digit_str(n % 10));
        proof {
            assert(r@ =~= decimal_chars((n / 10) as nat).push(digit_char((n % 10) as nat)));
        }
        r
    }
}

/// What the status line shows of a document: its height, the cursor's line,
/// the dirty flag, and the display name.
pub struct DocumentStatus {
    pub total_lines: usize,
    pub current_line_index: usize,
    pub is_modified: bool,
    pub file_name: String,
}

impl Default for DocumentStatus {
    /// The status of an empty, untitled, clean document.
    fn default() -> (r: Self)
        ensures
            r.total_lines == 0,
            r.current_line_index == 0,
            !r.is_modified,
            r.file_name@ == Seq::<char>::empty(),
    {
        DocumentStatus {
            total_lines: 0,
            current_line_index: 0,
            is_modified: false,
            file_name: String::new(),
        }
    }
}

/// The line-count caption: the height, then the word `lines`.
pub open spec fn line_count_text(total: nat) -> Seq<char> {
    decimal_chars(total) + " lines"@
}

/// The modified marker, or nothing when the document is clean.
pub open spec fn modified_text(modified: bool) -> Seq<char> {
    if modified {
        "(modified)"@
    } else {
        Seq::empty()
    }
}

/// The position caption: the one-based cursor line over the height. The
/// one-based line is held at the largest index rather than wrapping.
pub open spec fn position_text(current: nat, total: nat) -> Seq<char> {
    let shown = if current == usize::MAX {
        current
    } else {
        current + 1
    };
    decimal_chars(shown) + "/"@ + decimal_chars(total)
}

impl DocumentStatus {
    /// The line-count caption.
    pub fn line_count_to_string(&self) -> (r: String)
        ensures
            r@ == line_count_text(self.total_lines as nat),
    {
        let mut r = format_usize(self.total_lines);
        r.append(" lines");
        r
    }

    /// The modified marker, or nothing when the document is clean.
    pub fn modified_indicator_to_string(&self) -> (r: String)
        ensures
            r@ == modified_text(self.is_modified),
    {
        if self.is_modified {
            String::from_str("(modified)")
        } else {
            String::new()
        }
    }

    /// The position caption.
    pub fn position_indicator_to_string(&self) -> (r: String)
        ensures
            r@ == position_text(self.current_line_index as nat, self.total_lines as nat),
    {
        let shown = if self.current_line_index == usize::MAX {
            self.current_line_index
        } else {
            self.current_line_index + 1
        };
        let mut r = format_usize(shown);
        r.append("/");
        let t = format_usize(self.total_lines);
        r.append(t.as_str());
        r
    }

    /// Whether two snapshots would render identically.
    pub fn equals(&self, other: &DocumentStatus) -> (r: bool)
        ensures
            r == (self.total_lines == other.total_lines && self.current_line_index
                == other.current_line_index && self.is_modified == other.is_modified
                && self.file_name@ == other.file_name@),
    {
        self.total_lines == other.total_lines && self.current_line_index
            == other.current_line_index && self.is_modified == other.is_modified
            && self.file_name == other.file_name
    }
}

} // verus!
