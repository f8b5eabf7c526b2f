//! The plain parts of the driver configuration: which browser to drive and
//! the connection defaults.  Establishing the live session belongs to the
//! surrounding application.

use vstd::prelude::*;
use vstd::string::*;
use crate::strutil::str_eq;

verus! {

/// Which browser the driver runs.
#[derive(Debug, Clone, Default, Copy, PartialEq, Eq, Structural)]
pub enum Browser {
    #[default]
    CHROME,
    FIREFOX,
}

/// Which browser a name denotes.
pub open spec fn spec_browser(s: Seq<char>) -> Result<Browser, Seq<char>> {
    if s == "chrome"@ {
        Ok(Browser::CHROME)
    } else if s == "firefox"@ {
        Ok(Browser::FIREFOX)
    } else {
        Err("Browser not Supported"@)
    }
}

impl Browser {
    /// Parses a browser name.
    pub fn parse(input: &str) -> (r: Result<Browser, String>)
        ensures
            match r {
                Ok(b) => spec_browser(input@) == Ok::<Browser, Seq<char>>(b),
                Err(m) => spec_browser(input@) matches Err(e) && m@ == e,
            },
    {
        if str_eq(input, "chrome") {
            Ok(Browser::CHROME)
        } else if str_eq(input, "firefox") {
            Ok(Browser::FIREFOX)
        } else {
            Err(String::from_str("Browser not Supported"))
        }
    }

    /// The browser's name, as configuration writes it.
    pub fn label(&self) -> (r: &'static str)
        ensures
            r@ == self.spec_label(),
    {
        match self {
            Browser::CHROME => "chrome",
            Browser::FIREFOX => "firefox",
        }
    }

    pub open spec fn spec_label(&self) -> Seq<char> {
        match self {
            Browser::CHROME => "chrome"@,
            Browser::FIREFOX => "firefox"@,
        }
    }
}

/// The driver connection settings a configuration file may hold.
#[derive(Debug, PartialEq, Eq)]
pub struct DriverConfig {
    pub browser: Option<String>,
    pub server_url: Option<String>,
    pub port: Option<u32>,
    pub webdriver_path: Option<String>,
}

impl DriverConfig {
    /// The settings used where the configuration names none: the default
    /// browser against a local driver on its usual port.
    pub fn default() -> (r: DriverConfig)
        ensures
            r.browser matches Some(b) && b@ == "chrome"@,
            r.server_url matches Some(u) && u@ == "http://localhost"@,
            r.port == Some(9515u32),
            r.webdriver_path is None,
    {
        DriverConfig {
            browser: Some(String::from_str(Browser::CHROME.label())),
            server_url: Some(String::from_str("http://localhost")),
            port: Some(9515),
            webdriver_path: None,
        }
    }
}

} // verus!
