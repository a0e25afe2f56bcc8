//! Terminal colour codes, switched off by the `NO_COLOR` convention.
use vstd::prelude::*;

verus! {

/// The escape sequences placed around coloured text; all empty when colours are off.
#[derive(Debug)]
pub struct Colors {
    pub bold_white: String,
    pub bold_gray: String,
    pub bold_red: String,
    pub bold_green: String,
    pub bold_yellow: String,
    pub bold_blue: String,
    pub red: String,
    pub green: String,
    pub yellow: String,
    pub reset: String,
}

/// The ANSI sequences used when colours are on.
pub open spec fn has_color_codes(c: Colors) -> bool {
    &&& c.bold_white@ == "\x1b[1;40m"@
    &&& c.bold_gray@ == "\x1b[1;90m"@
    &&& c.bold_red@ == "\x1b[1;31m"@
    &&& c.bold_green@ == "\x1b[1;32m"@
    &&& c.bold_yellow@ == "\x1b[1;33m"@
    &&& c.bold_blue@ == "\x1b[1;34m"@
    &&& c.red@ == "\x1b[31m"@
    &&& c.green@ == "\x1b[32m"@
    &&& c.yellow@ == "\x1b[33m"@
    &&& c.reset@ == "\x1b[0m"@
}

/// Every sequence empty: colours off.
pub open spec fn has_no_color_codes(c: Colors) -> bool {
    &&& c.bold_white@.len() == 0
    &&& c.bold_gray@.len() == 0
    &&& c.bold_red@.len() == 0
    &&& c.bold_green@.len() == 0
    &&& c.bold_yellow@.len() == 0
    &&& c.bold_blue@.len() == 0
    &&& c.red@.len() == 0
    &&& c.green@.len() == 0
    &&& c.yellow@.len() == 0
    &&& c.reset@.len() == 0
}

/// `NO_COLOR` asks for plain output when it is set to `1` or `true`.
pub open spec fn no_color_requested(no_color_env: Option<Seq<char>>) -> bool {
    match no_color_env {
        Some(v) => v == "1"@ || v == "true"@,
        None => false,
    }
}

/// The view of an optional string slice.
pub open spec fn opt_view(o: Option<&str>) -> Option<Seq<char>> {
    match o {
        Some(s) => Some(s@),
        None => None,
    }
}

impl Clone for Colors {
    fn clone(&self) -> (r: Self)
        ensures
            r == *self,
    {
        Colors {
            bold_white: self.bold_white.clone(),
            bold_gray: self.bold_gray.clone(),
            bold_red: self.bold_red.clone(),
            bold_green: self.bold_green.clone(),
            bold_yellow: self.bold_yellow.clone(),
            bold_blue: self.bold_blue.clone(),
            red: self.red.clone(),
            green: self.green.clone(),
            yellow: self.yellow.clone(),
            reset: self.reset.clone(),
        }
    }
}

impl Colors {
    /// The colours for an environment whose `NO_COLOR` variable is `no_color_env`.
    pub fn new(no_color_env: Option<&str>) -> (c: Colors)
        ensures
            no_color_requested(opt_view(no_color_env)) ==> has_no_color_codes(c),
            !no_color_requested(opt_view(no_color_env)) ==> has_color_codes(c),
    {
        let mut colors = Self::get_colors_without_colors();
        if !Self::check_no_color_env(no_color_env) {
            colors = Self::get_colors();
        }
        colors
    }

    fn get_colors() -> (c: Colors)
        ensures
            has_color_codes(c),
    {
        Colors {
            bold_white: String::from_str("\x1b[1;40m"),
            bold_gray: String::from_str("\x1b[1;90m"),
            bold_red: String::from_str("\x1b[1;31m"),
            bold_green: String::from_str("\x1b[1;32m"),
            bold_yellow: String::from_str("\x1b[1;33m"),
            bold_blue: String::from_str("\x1b[1;34m"),
            red: String::from_str("\x1b[31m"),
            green: String::from_str("\x1b[32m"),
            yellow: String::from_str("\x1b[33m"),
            reset: String::from_str("\x1b[0m"),
        }
    }

    fn get_colors_without_colors() -> (c: Colors)
        ensures
            has_no_color_codes(c),
    {
        Colors {
            bold_white: String::new(),
            bold_gray: String::new(),
            bold_red: String::new(),
            bold_green: String::new(),
            bold_yellow: String::new(),
            bold_blue: String::new(),
            red: String::new(),
            green: String::new(),
            yellow: String::new(),
            reset: String::new(),
        }
    }

    /// Whether the value of `NO_COLOR` (absent: `None`) turns colours off.
    pub fn check_no_color_env(no_color_env: Option<&str>) -> (r: bool)
        ensures
            r == no_color_requested(opt_view(no_color_env)),
    {
        match no_color_env {
            None => false,
            Some(v) => crate::text::str_eq(v, "1") || crate::text::str_eq(v, "true"),
        }
    }
}

} // verus!
