//! The three regions and the codes by which the endpoint names them.

use vstd::prelude::*;
use vstd::string::*;

verus! {

/// One of the three progress tracks.
#[derive(Clone, Copy, Debug, PartialEq, Eq, Structural)]
pub enum Region {
    Americas,
    Europe,
    Asia,
}

impl Region {
    /// The region that a wire code names, if it names one.
    pub open spec fn of_code(code: Seq<char>) -> Option<Region> {
        if code == "1"@ {
            Some(Region::Americas)
        } else if code == "2"@ {
            Some(Region::Europe)
        } else if code == "3"@ {
            Some(Region::Asia)
        } else {
            None
        }
    }

    /// The wire code of a region.
    pub open spec fn code_spec(self) -> Seq<char> {
        match self {
            Region::Americas => "1"@,
            Region::Europe => "2"@,
            Region::Asia => "3"@,
        }
    }

    /// The name under which a region is shown.
    pub open spec fn name_spec(self) -> Seq<char> {
        match self {
            Region::Americas => "Americas"@,
            Region::Europe => "Europe"@,
            Region::Asia => "Asia"@,
        }
    }

    /// Reads a wire code: `"1"`, `"2"` and `"3"` name a region, nothing else does.
    pub fn from_code(code: &str) -> (region: Option<Region>)
        ensures
            region == Region::of_code(code@),
    {
        proof {
            reveal_strlit("1");
            reveal_strlit("2");
            reveal_strlit("3");
        }
        if code.unicode_len() != 1 {
            return None;
        }
        let c = code.get_char(0);
        if c == '1' {
            assert(code@ =~= "1"@);
            Some(Region::Americas)
        } else if c == '2' {
            assert(code@ =~= "2"@);
            Some(Region::Europe)
        } else if c == '3' {
            assert(code@ =~= "3"@);
            Some(Region::Asia)
        } else {
            None
        }
    }

    /// The wire code of this region.
    pub fn code(self) -> (code: &'static str)
        ensures
            code@ == self.code_spec(),
    {
        match self {
            Region::Americas => "1",
            Region::Europe => "2",
            Region::Asia => "3",
        }
    }

    /// The name under which this region is shown.
    pub fn name(self) -> (name: &'static str)
        ensures
            name@ == self.name_spec(),
    {
        match self {
            Region::Americas => "Americas",
            Region::Europe => "Europe",
            Region::Asia => "Asia",
        }
    }
}

/// The name shown for a wire code: the region's name, or `"Unknown"` for a
/// code that names no region.
pub open spec fn display_name_spec(code: Seq<char>) -> Seq<char> {
    match Region::of_code(code) {
        Some(region) => region.name_spec(),
        None => "Unknown"@,
    }
}

/// The name to show for a wire code, whether or not it names a region.
pub fn display_name(code: &str) -> (name: &'static str)
    ensures
        name@ == display_name_spec(code@),
{
    match Region::from_code(code) {
        Some(region) => region.name(),
        None => "Unknown",
    }
}

/// Each region's code reads back as that region.
pub proof fn lemma_code_reads_back(region: Region)
    ensures
        Region::of_code(region.code_spec()) == Some(region),
{
    lemma_codes_differ();
}

/// A code names a region exactly when it is that region's code, so a string
/// other than `"1"`, `"2"` and `"3"` names none.
pub proof fn lemma_only_codes_name_regions(code: Seq<char>)
    ensures
        match Region::of_code(code) {
            Some(region) => code == region.code_spec(),
            None => code != "1"@ && code != "2"@ && code != "3"@,
        },
        forall|region: Region| code == region.code_spec() <==> Region::of_code(code) == Some(region),
{
    lemma_codes_differ();
}

/// The three codes are three different strings.
proof fn lemma_codes_differ()
    ensures
        "1"@ != "2"@,
        "1"@ != "3"@,
        "2"@ != "3"@,
{
    reveal_strlit("1");
    reveal_strlit("2");
    reveal_strlit("3");
    assert("1"@[0] == '1');
    assert("2"@[0] == '2');
    assert("3"@[0] == '3');
}

} // verus!
