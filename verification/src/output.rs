//! How each status value presents itself: an emoji and a
//! description, separated from the domain logic.

use vstd::prelude::*;

use crate::status::{LocalStatus, PrStatus, RemoteStatus};
use crate::strutil::{dec_str, u64_to_string};

verus! {

/// A status that knows how to present itself.
pub trait StatusFormatter {
    /// The characters of the emoji this status renders as.
    spec fn spec_emoji(&self) -> Seq<char>;

    /// The characters of the text this status renders as.
    spec fn spec_description(&self) -> Seq<char>;

    fn emoji(&self) -> (r: &'static str)
        ensures
            r@ == self.spec_emoji(),
    ;

    fn description(&self) -> (r: String)
        ensures
            r@ == self.spec_description(),
    ;
}

impl StatusFormatter for LocalStatus {
    open spec fn spec_emoji(&self) -> Seq<char> {
        match *self {
            LocalStatus::Clean => "\u{2705}"@,
            LocalStatus::Dirty => "\u{1f527}"@,
            LocalStatus::Staged => "\u{1f4e6}"@,
            LocalStatus::Missing => "\u{274c}"@,
        }
    }

    open spec fn spec_description(&self) -> Seq<char> {
        match *self {
            LocalStatus::Clean => "Clean"@,
            LocalStatus::Dirty => "Dirty"@,
            LocalStatus::Staged => "Staged"@,
            LocalStatus::Missing => "Missing"@,
        }
    }

    fn emoji(&self) -> (r: &'static str)
        ensures
            r@ == self.spec_emoji(),
    {
        match self {
            LocalStatus::Clean => "\u{2705}",
            LocalStatus::Dirty => "\u{1f527}",
            LocalStatus::Staged => "\u{1f4e6}",
            LocalStatus::Missing => "\u{274c}",
        }
    }

    fn description(&self) -> (r: String)
        ensures
            r@ == self.spec_description(),
    {
        match self {
            LocalStatus::Clean => String::from_str("Clean"),
            LocalStatus::Dirty => String::from_str("Dirty"),
            LocalStatus::Staged => String::from_str("Staged"),
            LocalStatus::Missing => String::from_str("Missing"),
        }
    }
}

impl StatusFormatter for RemoteStatus {
    open spec fn spec_emoji(&self) -> Seq<char> {
        match *self {
            RemoteStatus::UpToDate => "\u{2705}"@,
            RemoteStatus::Ahead(_) => "\u{2b06}\u{fe0f}"@,
            RemoteStatus::Behind(_) => "\u{2b07}\u{fe0f}"@,
            RemoteStatus::Diverged(_, _) => "\u{1f500}"@,
            RemoteStatus::NotPushed => "\u{274c}"@,
            RemoteStatus::NotTracking => "\u{1f504}"@,
            RemoteStatus::NoRemote => "\u{274c}"@,
        }
    }

    open spec fn spec_description(&self) -> Seq<char> {
        match *self {
            RemoteStatus::UpToDate => "Up to date"@,
            RemoteStatus::Ahead(n) => "Ahead "@ + dec_str(n as int),
            RemoteStatus::Behind(n) => "Behind "@ + dec_str(n as int),
            RemoteStatus::Diverged(a, b) => "Diverged (+"@ + dec_str(a as int) + "/\u{2212}"@
                + dec_str(b as int) + ")"@,
            RemoteStatus::NotPushed => "Not pushed"@,
            RemoteStatus::NotTracking => "Not tracking"@,
            RemoteStatus::NoRemote => "No remote"@,
        }
    }

    fn emoji(&self) -> (r: &'static str)
        ensures
            r@ == self.spec_emoji(),
    {
        match self {
            RemoteStatus::UpToDate => "\u{2705}",
            RemoteStatus::Ahead(_) => "\u{2b06}\u{fe0f}",
            RemoteStatus::Behind(_) => "\u{2b07}\u{fe0f}",
            RemoteStatus::Diverged(_, _) => "\u{1f500}",
            RemoteStatus::NotPushed => "\u{274c}",
            RemoteStatus::NotTracking => "\u{1f504}",
            RemoteStatus::NoRemote => "\u{274c}",
        }
    }

    fn description(&self) -> (r: String)
        ensures
            r@ == self.spec_description(),
    {
        match self {
            RemoteStatus::UpToDate => String::from_str("Up to date"),
            RemoteStatus::Ahead(n) => {
                let mut s = String::from_str("Ahead ");
                s.append(u64_to_string(*n as u64).as_str());
                s
            },
            RemoteStatus::Behind(n) => {
                let mut s = String::from_str("Behind ");
                s.append(u64_to_string(*n as u64).as_str());
                s
            },
            RemoteStatus::Diverged(a, b) => {
                let mut s = String::from_str("Diverged (+");
                s.append(u64_to_string(*a as u64).as_str());
                s.append("/\u{2212}");
                s.append(u64_to_string(*b as u64).as_str());
                s.append(")");
                s
            },
            RemoteStatus::NotPushed => String::from_str("Not pushed"),
            RemoteStatus::NotTracking => String::from_str("Not tracking"),
            RemoteStatus::NoRemote => String::from_str("No remote"),
        }
    }
}

impl StatusFormatter for PrStatus {
    open spec fn spec_emoji(&self) -> Seq<char> {
        match *self {
            PrStatus::Open(_, _) => "\u{1f4cb}"@,
            PrStatus::Merged(_) => "\u{2705}"@,
            PrStatus::Closed(_) => "\u{274c}"@,
            PrStatus::NoPr => "\u{2796}"@,
            PrStatus::NoGitHub => "\u{2796}"@,
            PrStatus::NoGhCli => "\u{2796}"@,
        }
    }

    open spec fn spec_description(&self) -> Seq<char> {
        match *self {
            PrStatus::Open(num, a) => match a {
                Some(approval) => "PR Open (#"@ + dec_str(num as int) + ") \u{2713} "@ + approval@,
                None => "PR Open (#"@ + dec_str(num as int) + ") \u{23f3}"@,
            },
            PrStatus::Merged(num) => "PR Merged (#"@ + dec_str(num as int) + ") \u{2705}"@,
            PrStatus::Closed(num) => "PR Closed (#"@ + dec_str(num as int) + ") \u{274c}"@,
            PrStatus::NoPr => "No PR"@,
            PrStatus::NoGitHub => "No GitHub"@,
            PrStatus::NoGhCli => "No gh CLI"@,
        }
    }

    fn emoji(&self) -> (r: &'static str)
        ensures
            r@ == self.spec_emoji(),
    {
        match self {
            PrStatus::Open(_, _) => "\u{1f4cb}",
            PrStatus::Merged(_) => "\u{2705}",
            PrStatus::Closed(_) => "\u{274c}",
            PrStatus::NoPr => "\u{2796}",
            PrStatus::NoGitHub => "\u{2796}",
            PrStatus::NoGhCli => "\u{2796}",
        }
    }

    fn description(&self) -> (r: String)
        ensures
            r@ == self.spec_description(),
    {
        match self {
            PrStatus::Open(num, a) => {
                let mut s = String::from_str("PR Open (#");
                s.append(u64_to_string(*num).as_str());
                match a {
                    Option::Some(approval) => {
                        s.append(") \u{2713} ");
                        s.append(approval.as_str());
                    },
                    Option::None => {
                        s.append(") \u{23f3}");
                    },
                }
                s
            },
            PrStatus::Merged(num) => {
                let mut s = String::from_str("PR Merged (#");
                s.append(u64_to_string(*num).as_str());
                s.append(") \u{2705}");
                s
            },
            PrStatus::Closed(num) => {
                let mut s = String::from_str("PR Closed (#");
                s.append(u64_to_string(*num).as_str());
                s.append(") \u{274c}");
                s
            },
            PrStatus::NoPr => String::from_str("No PR"),
            PrStatus::NoGitHub => String::from_str("No GitHub"),
            PrStatus::NoGhCli => String::from_str("No gh CLI"),
        }
    }
}

} // verus!
