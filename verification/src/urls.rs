//! Federation URLs, reduced to the parts the policy and address logic read:
//! scheme, host, optional port, and path.

use vstd::prelude::*;
use vstd::string::StringExecFns;

verus! {

/// The view of an `Option<String>` as an optional character sequence.
pub open spec fn opt_text(o: Option<String>) -> Option<Seq<char>> {
    match o {
        Some(s) => Some(s@),
        None => None,
    }
}

/// Spec-level image of a federation URL: the four parts this library
/// reasons about.
#[verifier::ext_equal]
pub ghost struct UrlModel {
    pub scheme: Seq<char>,
    pub host: Option<Seq<char>>,
    pub port: Option<u16>,
    pub path: Seq<char>,
}

impl UrlModel {
    /// What holds of every URL the `url` crate hands out: a nonempty scheme,
    /// and a nonempty host wherever one is present.
    pub open spec fn wf(self) -> bool {
        &&& self.scheme.len() > 0
        &&& self.host is Some ==> self.host.unwrap().len() > 0
    }
}

/// An absolute URL, reduced to the parts federation reads. Parsed values
/// come from `ApubUrl::parse`, which is backed by the `url` crate.
#[derive(Debug)]
pub struct ApubUrl {
    pub scheme: String,
    pub host: Option<String>,
    pub port: Option<u16>,
    pub path: String,
}

impl View for ApubUrl {
    type V = UrlModel;

    open spec fn view(&self) -> UrlModel {
        UrlModel {
            scheme: self.scheme@,
            host: opt_text(self.host),
            port: self.port,
            path: self.path@,
        }
    }
}

/// The character standing for one decimal digit.
pub open spec fn digit_char(d: nat) -> char {
    if d == 0 {
        '0'
    } else if d == 1 {
        '1'
    } else if d == 2 {
        '2'
    } else if d == 3 {
        '3'
    } else if d == 4 {
        '4'
    } else if d == 5 {
        '5'
    } else if d == 6 {
        '6'
    } else if d == 7 {
        '7'
    } else if d == 8 {
        '8'
    } else {
        '9'
    }
}

/// The decimal digits of `n`, most significant first.
pub open spec fn dec_str(n: nat) -> Seq<char>
    decreases n,
{
    if n < 10 {
        seq![digit_char(n)]
    } else {
        dec_str(n / 10).push(digit_char(n % 10))
    }
}

/// The text form of a URL: `scheme://host[:port]path`.
pub open spec fn url_text(m: UrlModel) -> Seq<char> {
    m.scheme + "://"@ + (match m.host {
        Some(h) => h,
        None => Seq::<char>::empty(),
    }) + (match m.port {
        Some(p) => ":"@ + dec_str(p as nat),
        None => Seq::<char>::empty(),
    }) + m.path
}

fn digit_text(d: u16) -> (r: &'static str)
    requires
        d < 10,
    ensures
        r@ == seq![digit_char(d as nat)],
{
    if d == 0 {
        let r = "0";
        proof {
            reveal_strlit("0");
            assert(r@ =~= seq![digit_char(d as nat)]);
        }
        r
    } else if d == 1 {
        let r = "1";
        proof {
            reveal_strlit("1");
            assert(r@ =~= seq![digit_char(d as nat)]);
        }
        r
    } else if d == 2 {
        let r = "2";
        proof {
            reveal_strlit("2");
            assert(r@ =~= seq![digit_char(d as nat)]);
        }
        r
    } else if d == 3 {
        let r = "3";
        proof {
            reveal_strlit("3");
            assert(r@ =~= seq![digit_char(d as nat)]);
        }
        r
    } else if d == 4 {
        let r = "4";
        proof {
            reveal_strlit("4");
            assert(r@ =~= seq![digit_char(d as nat)]);
        }
        r
    } else if d == 5 {
        let r = "5";
        proof {
            reveal_strlit("5");
            assert(r@ =~= seq![digit_char(d as nat)]);
        }
        r
    } else if d == 6 {
        let r = "6";
        proof {
            reveal_strlit("6");
            assert(r@ =~= seq![digit_char(d as nat)]);
        }
        r
    } else if d == 7 {
        let r = "7";
        proof {
            reveal_strlit("7");
            assert(r@ =~= seq![digit_char(d as nat)]);
        }
        r
    } else if d == 8 {
        let r = "8";
        proof {
            reveal_strlit("8");
            assert(r@ =~= seq![digit_char(d as nat)]);
        }
        r
    } else {
        let r = "9";
        proof {
            reveal_strlit("9");
            assert(r@ =~= seq![digit_char(d as nat)]);
        }
        r
    }
}

/// Renders a port number in decimal.
fn dec_text(n: u16) -> (r: String)
    ensures
        r@ == dec_str(n as nat),
    decreases n,
{
    if n < 10 {
        let mut s = String::new();
        s.append(digit_text(n));
        proof {
            assert(s@ =~= dec_str(n as nat));
        }
        s
    } else {
        let mut s = dec_text(n / 10);
        s.append(digit_text(n % 10));
        proof {
            assert(s@ =~= dec_str(n as nat));
        }
        s
    }
}

/// What `url::Url::parse` makes of a piece of text: `None` where parsing
/// fails, otherwise the parts of the parsed absolute URL. The result depends
/// on the text alone.
pub uninterp spec fn parsed_url(s: Seq<char>) -> Option<UrlModel>;

/// Relies on `url::Url::parse`: parses text as an absolute URL. On success
/// the parts below are exactly `scheme()`, `domain()`, `port()` and `path()`
/// of the parsed URL; `url` documents that a parsed URL always has a
/// nonempty scheme and that `domain()` never yields an empty string.
#[verifier::external_body]
fn parse_url_raw(s: &str) -> (r: Option<ApubUrl>)
    ensures
        match r {
            None => parsed_url(s@) is None,
            Some(u) => parsed_url(s@) == Some(u@) && u@.wf(),
        },
{
    match url::Url::parse(s) {
        Ok(u) => Some(ApubUrl {
            scheme: u.scheme().to_string(),
            host: u.domain().map(|d| d.to_string()),
            port: u.port(),
            path: u.path().to_string(),
        }),
        Err(_) => None,
    }
}

impl ApubUrl {
    /// Parses text into a federation URL via the `url` crate; `None` exactly
    /// where the text is not an absolute URL.
    pub fn parse(s: &str) -> (r: Option<ApubUrl>)
        ensures
            match r {
                None => parsed_url(s@) is None,
                Some(u) => parsed_url(s@) == Some(u@) && u@.wf(),
            },
    {
        parse_url_raw(s)
    }

    /// Renders the URL as text: `scheme://host[:port]path`.
    pub fn to_text(&self) -> (r: String)
        ensures
            r@ == url_text(self@),
    {
        let mut s = self.scheme.clone();
        s.append("://");
        match &self.host {
            Some(h) => s.append(h.as_str()),
            None => (),
        }
        match self.port {
            Some(p) => {
                s.append(":");
                let d = dec_text(p);
                s.append(d.as_str());
            },
            None => (),
        }
        s.append(self.path.as_str());
        proof {
            reveal_strlit("://");
            reveal_strlit(":");
            assert(s@ =~= url_text(self@));
        }
        s
    }

    /// A structurally equal copy of the URL.
    pub fn copied(&self) -> (r: ApubUrl)
        ensures
            r@ == self@,
    {
        let host = match &self.host {
            Some(h) => Some(h.clone()),
            None => None,
        };
        ApubUrl { scheme: self.scheme.clone(), host, port: self.port, path: self.path.clone() }
    }
}

} // verus!

