//! Command-line configuration: how many spatial dimensions to simulate and
//! whether to open a window.
use vstd::prelude::*;

verus! {

/// What the program was asked to do: the number of spatial dimensions, one to
/// three, and whether to open a window.
#[derive(Debug, Clone, Copy, PartialEq, Eq, Structural)]
pub struct Config {
    dims: u8,
    vis: bool,
}

/// Why the command line does not describe a run.
#[derive(Debug, Clone, Copy, PartialEq, Eq, Structural)]
pub enum ConfigError {
    /// One or two arguments are expected after the program name.
    WrongArgumentCount { found: usize },
    /// The first argument is not a number from 0 to 255.
    UnparsableDimensions,
    /// The number of dimensions is not 1, 2 or 3.
    UnsupportedDimensions { dims: u8 },
}

/// The simulations that can be started.
#[derive(Debug, Clone, Copy, PartialEq, Eq, Structural)]
pub enum Dimension {
    One,
    Two,
}

/// The window a simulation is shown in.
#[derive(Debug, Clone, Copy, PartialEq, Eq, Structural)]
pub enum Window {
    /// Curves over a line: real part, imaginary part and probability density.
    Plot,
    /// The probability density over a plane.
    Surface,
}

/// Whether the optional second argument asks for a window.
pub open spec fn vis_flag(s: Seq<char>) -> bool {
    s == "1"@ || s == "true"@
}

/// The number of arguments after the program name.
pub open spec fn user_arg_count(args: Seq<String>) -> int {
    if args.len() > 0 {
        args.len() - 1
    } else {
        0
    }
}

/// The number of dimensions and the window flag that a command line (program
/// name first) describes.
pub open spec fn config_of(args: Seq<String>) -> Result<(u8, bool), ConfigError> {
    let n = user_arg_count(args);
    if n < 1 || n > 2 {
        Err(ConfigError::WrongArgumentCount { found: n as usize })
    } else {
        match parse_u8(args[1]@) {
            None => Err(ConfigError::UnparsableDimensions),
            Some(d) => if d < 1 || d > 3 {
                Err(ConfigError::UnsupportedDimensions { dims: d })
            } else {
                Ok((d, n == 1 || vis_flag(args[2]@)))
            },
        }
    }
}

impl Config {
    pub closed spec fn spec_dims(&self) -> u8 {
        self.dims
    }

    pub closed spec fn spec_vis(&self) -> bool {
        self.vis
    }

    /// Reads the command line, program name first. The first argument is
    /// the number of dimensions; the second, if given, opens a window when
    /// it is `1` or `true`. Without it a window is opened.
    pub fn construct(args: &Vec<String>) -> (r: Result<Config, ConfigError>)
        ensures
            match config_of(args@) {
                Ok((d, v)) => r is Ok && r->Ok_0.spec_dims() == d && r->Ok_0.spec_vis() == v,
                Err(e) => r == Err::<Config, ConfigError>(e),
            },
            r is Ok ==> 1 <= r->Ok_0.spec_dims() <= 3,
    {
        let n: usize = if args.len() > 0 {
            args.len() - 1
        } else {
            0
        };
        if n < 1 || n > 2 {
            return Err(ConfigError::WrongArgumentCount { found: n });
        }
        let dims = match parse_u8_arg(args[1].as_str()) {
            None => {
                return Err(ConfigError::UnparsableDimensions);
            },
            Some(d) => d,
        };
        if dims < 1 || dims > 3 {
            return Err(ConfigError::UnsupportedDimensions { dims });
        }
        let vis = if n == 2 {
            let one = "1".to_owned();
            let yes = "true".to_owned();
            args[2] == one || args[2] == yes
        } else {
            true
        };
        Ok(Config { dims, vis })
    }

    pub fn dims(&self) -> (r: u8)
        ensures
            r == self.spec_dims(),
    {
        self.dims
    }

    pub fn vis(&self) -> (r: bool)
        ensures
            r == self.spec_vis(),
    {
        self.vis
    }

    /// The simulation to start; `None` for three dimensions, which is not
    /// implemented.
    pub fn dimension(&self) -> (r: Option<Dimension>)
        ensures
            r == (if self.spec_dims() == 1 {
                Some(Dimension::One)
            } else if self.spec_dims() == 2 {
                Some(Dimension::Two)
            } else {
                None
            }),
    {
        if self.dims == 1 {
            Some(Dimension::One)
        } else if self.dims == 2 {
            Some(Dimension::Two)
        } else {
            None
        }
    }
}

impl Default for Config {
    /// One dimension, shown in a window.
    fn default() -> (r: Config)
        ensures
            r.spec_dims() == 1,
            r.spec_vis(),
    {
        Config { dims: 1, vis: true }
    }
}

/// The value of an ASCII decimal digit.
pub open spec fn digit_value(c: char) -> int {
    c as int - '0' as int
}

pub open spec fn is_digit(c: char) -> bool {
    '0' <= c && c <= '9'
}

/// The number written by a string of decimal digits, most significant first.
pub open spec fn decimal_value(s: Seq<char>) -> int
    decreases s.len(),
{
    if s.len() == 0 {
        0
    } else {
        decimal_value(s.drop_last()) * 10 + digit_value(s.last())
    }
}

/// The digits of an unsigned number as the standard parser reads them: an
/// optional leading `+` is dropped.
pub open spec fn unsigned_digits(s: Seq<char>) -> Seq<char> {
    if s.len() > 0 && s[0] == '+' {
        s.subrange(1, s.len() as int)
    } else {
        s
    }
}

/// What parsing `s` as a `u8` gives: at least one digit after an optional `+`,
/// nothing else, and a value that fits.
pub open spec fn parse_u8(s: Seq<char>) -> Option<u8> {
    let d = unsigned_digits(s);
    if d.len() > 0 && (forall|i: int| 0 <= i < d.len() ==> is_digit(#[trigger] d[i]))
        && decimal_value(d) <= 255 {
        Some(decimal_value(d) as u8)
    } else {
        None
    }
}

proof fn lemma_decimal_value_push(s: Seq<char>, c: char)
    ensures
        decimal_value(s.push(c)) == decimal_value(s) * 10 + digit_value(c),
{
    assert(s.push(c).drop_last() =~= s);
}

proof fn lemma_decimal_value_nonneg(s: Seq<char>)
    requires
        forall|i: int| 0 <= i < s.len() ==> is_digit(#[trigger] s[i]),
    ensures
        decimal_value(s) >= 0,
    decreases s.len(),
{
    if s.len() > 0 {
        let p = s.drop_last();
        assert forall|i: int| 0 <= i < p.len() implies is_digit(#[trigger] p[i]) by {
            assert(p[i] == s[i]);
        }
        lemma_decimal_value_nonneg(p);
    }
}

/// Once a prefix of digits is over 255, so is every longer string of digits.
proof fn lemma_decimal_value_grows(s: Seq<char>, k: int)
    requires
        0 <= k <= s.len(),
        forall|i: int| 0 <= i < s.len() ==> is_digit(#[trigger] s[i]),
    ensures
        decimal_value(s) >= decimal_value(s.subrange(0, k)),
    decreases s.len() - k,
{
    if k < s.len() {
        lemma_decimal_value_grows(s, k + 1);
        let p = s.subrange(0, k);
        assert(s.subrange(0, k + 1) =~= p.push(s[k]));
        lemma_decimal_value_push(p, s[k]);
        assert forall|i: int| 0 <= i < p.len() implies is_digit(#[trigger] p[i]) by {
            assert(p[i] == s[i]);
        }
        lemma_decimal_value_nonneg(p);
    } else {
        assert(s.subrange(0, k) =~= s);
    }
}

/// Parses a `u8` the way the standard library's `str::parse` does.
pub fn parse_u8_arg(s: &str) -> (r: Option<u8>)
    ensures
        r == parse_u8(s@),
{
    let ghost full = s@;
    let ghost d = unsigned_digits(full);
    let mut value: u32 = 0;
    let ghost mut seen: int = 0;
    let mut empty = true;
    let mut ok = true;
    let mut skipped_plus = false;
    let mut first = true;
    for c in it: s.chars()
        invariant
            first <==> it.index() == 0,
            empty <==> seen == 0,
            it.seq() == full,
            d == unsigned_digits(full),
            it.index() <= full.len(),
            skipped_plus <==> (it.index() > 0 && full[0] == '+'),
            seen == it.index() - (if skipped_plus { 1int } else { 0int }),
            seen <= d.len(),
            ok ==> value <= 255,
            ok ==> value as int == decimal_value(d.subrange(0, seen)),
            ok <==> (forall|i: int| 0 <= i < seen ==> is_digit(#[trigger] d[i]))
                && decimal_value(d.subrange(0, seen)) <= 255,
    {
        let ghost k = it.index();
        assert(c == full[k]);
        if first && c == '+' {
            skipped_plus = true;
        } else {
            proof {
                assert(d[seen] == c);
            }
            if ok {
                if '0' <= c && c <= '9' {
                    let next = value * 10 + (c as u32 - '0' as u32);
                    proof {
                        lemma_decimal_value_push(d.subrange(0, seen), c);
                        assert(d.subrange(0, seen + 1) =~= d.subrange(0, seen).push(c));
                    }
                    if next > 255 {
                        ok = false;
                    } else {
                        value = next;
                    }
                } else {
                    ok = false;
                }
            } else {
                proof {
                    let p = d.subrange(0, seen + 1);
                    if forall|i: int| 0 <= i < seen + 1 ==> is_digit(#[trigger] d[i]) {
                        assert forall|i: int| 0 <= i < p.len() implies is_digit(#[trigger] p[i]) by {
                            assert(p[i] == d[i]);
                        }
                        lemma_decimal_value_grows(p, seen);
                        assert(p.subrange(0, seen) =~= d.subrange(0, seen));
                    }
                }
            }
            proof {
                seen = seen + 1;
            }
            empty = false;
        }
        first = false;
    }
    if ok && !empty {
        proof {
            assert(d.subrange(0, seen) =~= d);
        }
        Some(value as u8)
    } else {
        proof {
            assert(d.subrange(0, seen) =~= d);
        }
        None
    }
}

} // verus!
