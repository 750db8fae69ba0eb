use vstd::prelude::*;

verus! {

/// A storage region: one of a fixed set of known regions, or a custom
/// endpoint given as a bare host (`host.example.com`) or as a full origin
/// (`scheme://host`).
#[derive(Clone, Debug, Eq)]
pub enum Region {
    /// us-east-1
    UsEast1,
    /// us-east-2
    UsEast2,
    /// us-west-1
    UsWest1,
    /// us-west-2
    UsWest2,
    /// ca-central-1
    CaCentral1,
    /// ap-south-1
    ApSouth1,
    /// ap-northeast-1
    ApNortheast1,
    /// ap-northeast-2
    ApNortheast2,
    /// ap-southeast-1
    ApSoutheast1,
    /// ap-southeast-2
    ApSoutheast2,
    /// eu-central-1
    EuCentral1,
    /// eu-west-1
    EuWest1,
    /// eu-west-2
    EuWest2,
    /// eu-west-3
    EuWest3,
    /// sa-east-1
    SaEast1,
    /// Digital Ocean nyc3
    DoNyc3,
    /// Digital Ocean ams3
    DoAms3,
    /// Digital Ocean sgp1
    DoSgp1,
    /// A custom endpoint, kept verbatim
    Custom(String),
}

/// The display name of a region: the canonical name of a known region, and
/// the marker `custom` for every custom one.
pub open spec fn spec_name(r: Region) -> Seq<char> {
    match r {
        Region::UsEast1 => "us-east-1"@,
        Region::UsEast2 => "us-east-2"@,
        Region::UsWest1 => "us-west-1"@,
        Region::UsWest2 => "us-west-2"@,
        Region::CaCentral1 => "ca-central-1"@,
        Region::ApSouth1 => "ap-south-1"@,
        Region::ApNortheast1 => "ap-northeast-1"@,
        Region::ApNortheast2 => "ap-northeast-2"@,
        Region::ApSoutheast1 => "ap-southeast-1"@,
        Region::ApSoutheast2 => "ap-southeast-2"@,
        Region::EuCentral1 => "eu-central-1"@,
        Region::EuWest1 => "eu-west-1"@,
        Region::EuWest2 => "eu-west-2"@,
        Region::EuWest3 => "eu-west-3"@,
        Region::SaEast1 => "sa-east-1"@,
        Region::DoNyc3 => "nyc3"@,
        Region::DoAms3 => "ams3"@,
        Region::DoSgp1 => "sgp1"@,
        Region::Custom(_) => "custom"@,
    }
}

/// The default host of a known region; the stored payload, unstripped, of a
/// custom one.
pub open spec fn spec_endpoint(r: Region) -> Seq<char> {
    match r {
        Region::UsEast1 => "s3.amazonaws.com"@,
        Region::UsEast2 => "s3-us-east-2.amazonaws.com"@,
        Region::UsWest1 => "s3-us-west-1.amazonaws.com"@,
        Region::UsWest2 => "s3-us-west-2.amazonaws.com"@,
        Region::CaCentral1 => "s3-ca-central-1.amazonaws.com"@,
        Region::ApSouth1 => "s3-ap-south-1.amazonaws.com"@,
        Region::ApNortheast1 => "s3-ap-northeast-1.amazonaws.com"@,
        Region::ApNortheast2 => "s3-ap-northeast-2.amazonaws.com"@,
        Region::ApSoutheast1 => "s3-ap-southeast-1.amazonaws.com"@,
        Region::ApSoutheast2 => "s3-ap-southeast-2.amazonaws.com"@,
        Region::EuCentral1 => "s3-eu-central-1.amazonaws.com"@,
        Region::EuWest1 => "s3-eu-west-1.amazonaws.com"@,
        Region::EuWest2 => "s3-eu-west-2.amazonaws.com"@,
        Region::EuWest3 => "s3-eu-west-3.amazonaws.com"@,
        Region::SaEast1 => "s3-sa-east-1.amazonaws.com"@,
        Region::DoNyc3 => "nyc3.digitaloceanspaces.com"@,
        Region::DoAms3 => "ams3.digitaloceanspaces.com"@,
        Region::DoSgp1 => "sgp1.digitaloceanspaces.com"@,
        Region::Custom(p) => p@,
    }
}

/// `r` is what parsing `s` gives: the known region whose name is `s`, or,
/// when no known region has that name, a custom region holding `s` verbatim.
pub open spec fn parses_to(s: Seq<char>, r: Region) -> bool {
    match r {
        Region::Custom(p) => p@ == s && forall|k: Region| k !is Custom ==> spec_name(k) != s,
        _ => spec_name(r) == s,
    }
}

/// `"://"` begins at index `i` of `s`.
pub open spec fn sep_at(s: Seq<char>, i: int) -> bool {
    0 <= i && i + 3 <= s.len() && s.subrange(i, i + 3) == "://"@
}

/// The first `"://"` of `s` begins at index `i`.
pub open spec fn first_sep_at(s: Seq<char>, i: int) -> bool {
    sep_at(s, i) && forall|j: int| 0 <= j < i ==> !sep_at(s, j)
}

/// Where the first `"://"` of `s` begins, if it holds one.
pub open spec fn sep_pos(s: Seq<char>) -> Option<int> {
    if exists|i: int| first_sep_at(s, i) {
        Some(choose|i: int| first_sep_at(s, i))
    } else {
        None
    }
}

/// The transport scheme: what precedes the first `"://"` of a custom
/// payload, and `https` for a known region or a payload without one.
pub open spec fn spec_scheme(r: Region) -> Seq<char> {
    match r {
        Region::Custom(p) => match sep_pos(p@) {
            Some(i) => p@.subrange(0, i),
            None => "https"@,
        },
        _ => "https"@,
    }
}

/// The host authority: what follows the first `"://"` of a custom payload,
/// the whole payload where it has none, and the default host of a known
/// region.
pub open spec fn spec_host(r: Region) -> Seq<char> {
    match r {
        Region::Custom(p) => match sep_pos(p@) {
            Some(i) => p@.subrange(i + 3, p@.len() as int),
            None => p@,
        },
        _ => spec_endpoint(r),
    }
}

proof fn lemma_sep_at_chars(s: Seq<char>, i: int)
    requires
        0 <= i,
        i + 3 <= s.len(),
    ensures
        sep_at(s, i) <==> (s[i] == ':' && s[i + 1] == '/' && s[i + 2] == '/'),
{
    reveal_strlit("://");
    if s[i] == ':' && s[i + 1] == '/' && s[i + 2] == '/' {
        assert(s.subrange(i, i + 3) =~= "://"@);
    }
    if sep_at(s, i) {
        assert(s.subrange(i, i + 3)[0] == s[i]);
        assert(s.subrange(i, i + 3)[1] == s[i + 1]);
        assert(s.subrange(i, i + 3)[2] == s[i + 2]);
    }
}

proof fn lemma_sep_pos(s: Seq<char>, i: int)
    requires
        first_sep_at(s, i),
    ensures
        sep_pos(s) == Some(i),
{
    let j = choose|j: int| first_sep_at(s, j);
    assert(first_sep_at(s, j));
    assert(!(i < j));
    assert(!(j < i));
}

/// Index of the first `"://"` in `s`, or `None` where it holds none.
fn find_sep(s: &str) -> (r: Option<usize>)
    ensures
        r matches Some(i) ==> sep_pos(s@) == Some(i as int) && i + 3 <= s@.len(),
        r is None ==> sep_pos(s@) is None,
{
    let n = s.unicode_len();
    let mut i: usize = 0;
    while i < n && n - i >= 3
        invariant
            n == s@.len(),
            i <= n,
            forall|j: int| 0 <= j < i ==> !sep_at(s@, j),
        decreases n - i,
    {
        proof {
            lemma_sep_at_chars(s@, i as int);
        }
        if s.get_char(i) == ':' && s.get_char(i + 1) == '/' && s.get_char(i + 2) == '/' {
            proof {
                lemma_sep_pos(s@, i as int);
            }
            return Some(i);
        }
        i = i + 1;
    }
    assert forall|j: int| !first_sep_at(s@, j) by {
        if 0 <= j && j + 3 <= n {
            assert(j < i);
        }
    }
    None
}

/// No two known regions share a name.
proof fn lemma_known_names_distinct(a: Region, b: Region)
    requires
        a !is Custom,
        b !is Custom,
        spec_name(a) == spec_name(b),
    ensures
        a == b,
{
    reveal_strlit("us-east-1");
    reveal_strlit("us-east-2");
    reveal_strlit("us-west-1");
    reveal_strlit("us-west-2");
    reveal_strlit("ca-central-1");
    reveal_strlit("ap-south-1");
    reveal_strlit("ap-northeast-1");
    reveal_strlit("ap-northeast-2");
    reveal_strlit("ap-southeast-1");
    reveal_strlit("ap-southeast-2");
    reveal_strlit("eu-central-1");
    reveal_strlit("eu-west-1");
    reveal_strlit("eu-west-2");
    reveal_strlit("eu-west-3");
    reveal_strlit("sa-east-1");
    reveal_strlit("nyc3");
    reveal_strlit("ams3");
    reveal_strlit("sgp1");
    let (x, y) = (spec_name(a), spec_name(b));
    assert(x.len() == y.len());
    assert(x[0] == y[0]);
    assert(x[1] == y[1]);
    assert(x[3] == y[3]);
    assert(x.last() == y.last());
}

/// Parsing the display name of a known region gives that region back.
pub proof fn lemma_parse_name_round_trip(k: Region, r: Region)
    requires
        k !is Custom,
        parses_to(spec_name(k), r),
    ensures
        r == k,
{
    if r !is Custom {
        lemma_known_names_distinct(r, k);
    }
}

/// A known region is reached over `https` at its default host: its host is
/// its endpoint.
pub proof fn lemma_known_host_scheme(k: Region)
    requires
        k !is Custom,
    ensures
        spec_host(k) == spec_endpoint(k),
        spec_scheme(k) == "https"@,
{
}

/// Every custom region displays as `custom`, whatever its payload.
pub proof fn lemma_custom_display(p: String)
    ensures
        spec_name(Region::Custom(p)) == "custom"@,
{
}

/// Whether `a` and `b` hold the same characters.
fn str_eq(a: &str, b: &str) -> (r: bool)
    ensures
        r == (a@ == b@),
{
    let n = a.unicode_len();
    if n != b.unicode_len() {
        return false;
    }
    let mut i: usize = 0;
    while i < n
        invariant
            n == a@.len(),
            n == b@.len(),
            i <= n,
            a@.subrange(0, i as int) == b@.subrange(0, i as int),
        decreases n - i,
    {
        if a.get_char(i) != b.get_char(i) {
            return false;
        }
        assert(a@.subrange(0, i + 1) =~= a@.subrange(0, i as int).push(a@[i as int]));
        assert(b@.subrange(0, i + 1) =~= b@.subrange(0, i as int).push(b@[i as int]));
        i = i + 1;
    }
    assert(a@ =~= a@.subrange(0, n as int));
    assert(b@ =~= b@.subrange(0, n as int));
    true
}

impl Region {
    /// Parses a region identifier. The match against the known names is
    /// exact and case-sensitive; any other input becomes a custom region
    /// holding the input verbatim, so parsing never fails.
    pub fn parse(s: &str) -> (r: Region)
        ensures
            parses_to(s@, r),
    {
        if str_eq(s, "us-east-1") {
            Region::UsEast1
        } else if str_eq(s, "us-east-2") {
            Region::UsEast2
        } else if str_eq(s, "us-west-1") {
            Region::UsWest1
        } else if str_eq(s, "us-west-2") {
            Region::UsWest2
        } else if str_eq(s, "ca-central-1") {
            Region::CaCentral1
        } else if str_eq(s, "ap-south-1") {
            Region::ApSouth1
        } else if str_eq(s, "ap-northeast-1") {
            Region::ApNortheast1
        } else if str_eq(s, "ap-northeast-2") {
            Region::ApNortheast2
        } else if str_eq(s, "ap-southeast-1") {
            Region::ApSoutheast1
        } else if str_eq(s, "ap-southeast-2") {
            Region::ApSoutheast2
        } else if str_eq(s, "eu-central-1") {
            Region::EuCentral1
        } else if str_eq(s, "eu-west-1") {
            Region::EuWest1
        } else if str_eq(s, "eu-west-2") {
            Region::EuWest2
        } else if str_eq(s, "eu-west-3") {
            Region::EuWest3
        } else if str_eq(s, "sa-east-1") {
            Region::SaEast1
        } else if str_eq(s, "nyc3") {
            Region::DoNyc3
        } else if str_eq(s, "ams3") {
            Region::DoAms3
        } else if str_eq(s, "sgp1") {
            Region::DoSgp1
        } else {
            Region::Custom(String::from_str(s))
        }
    }

    /// The display name: the canonical name of a known region, `custom` for a
    /// custom one.
    pub fn to_string(&self) -> (r: String)
        ensures
            r@ == spec_name(*self),
    {
        let name: &str = match self {
            Region::UsEast1 => "us-east-1",
            Region::UsEast2 => "us-east-2",
            Region::UsWest1 => "us-west-1",
            Region::UsWest2 => "us-west-2",
            Region::CaCentral1 => "ca-central-1",
            Region::ApSouth1 => "ap-south-1",
            Region::ApNortheast1 => "ap-northeast-1",
            Region::ApNortheast2 => "ap-northeast-2",
            Region::ApSoutheast1 => "ap-southeast-1",
            Region::ApSoutheast2 => "ap-southeast-2",
            Region::EuCentral1 => "eu-central-1",
            Region::EuWest1 => "eu-west-1",
            Region::EuWest2 => "eu-west-2",
            Region::EuWest3 => "eu-west-3",
            Region::SaEast1 => "sa-east-1",
            Region::DoNyc3 => "nyc3",
            Region::DoAms3 => "ams3",
            Region::DoSgp1 => "sgp1",
            Region::Custom(_) => "custom",
        };
        String::from_str(name)
    }

    /// The default host of a known region; for a custom region, the stored
    /// payload as it was given, scheme prefix included.
    pub fn endpoint(&self) -> (r: &str)
        ensures
            r@ == spec_endpoint(*self),
    {
        match self {
            // us-east-1 has no s3-us-east-1.amazonaws.com record
            Region::UsEast1 => "s3.amazonaws.com",
            Region::UsEast2 => "s3-us-east-2.amazonaws.com",
            Region::UsWest1 => "s3-us-west-1.amazonaws.com",
            Region::UsWest2 => "s3-us-west-2.amazonaws.com",
            Region::CaCentral1 => "s3-ca-central-1.amazonaws.com",
            Region::ApSouth1 => "s3-ap-south-1.amazonaws.com",
            Region::ApNortheast1 => "s3-ap-northeast-1.amazonaws.com",
            Region::ApNortheast2 => "s3-ap-northeast-2.amazonaws.com",
            Region::ApSoutheast1 => "s3-ap-southeast-1.amazonaws.com",
            Region::ApSoutheast2 => "s3-ap-southeast-2.amazonaws.com",
            Region::EuCentral1 => "s3-eu-central-1.amazonaws.com",
            Region::EuWest1 => "s3-eu-west-1.amazonaws.com",
            Region::EuWest2 => "s3-eu-west-2.amazonaws.com",
            Region::EuWest3 => "s3-eu-west-3.amazonaws.com",
            Region::SaEast1 => "s3-sa-east-1.amazonaws.com",
            Region::DoNyc3 => "nyc3.digitaloceanspaces.com",
            Region::DoAms3 => "ams3.digitaloceanspaces.com",
            Region::DoSgp1 => "sgp1.digitaloceanspaces.com",
            Region::Custom(endpoint) => endpoint.as_str(),
        }
    }

    /// The transport scheme: for a custom region given as `scheme://host`,
    /// the part before the first `"://"`; `https` otherwise.
    pub fn scheme(&self) -> (r: &str)
        ensures
            r@ == spec_scheme(*self),
    {
        match self {
            Region::Custom(s) => {
                let s = s.as_str();
                match find_sep(s) {
                    Some(pos) => s.substring_char(0, pos),
                    None => "https",
                }
            },
            _ => "https",
        }
    }

    /// The host authority: for a custom region, the payload after its first
    /// `"://"`, or the whole payload where it has none; for a known region,
    /// its default host.
    pub fn host(&self) -> (r: &str)
        ensures
            r@ == spec_host(*self),
    {
        match self {
            Region::Custom(s) => {
                let s = s.as_str();
                let n = s.unicode_len();
                match find_sep(s) {
                    Some(pos) => s.substring_char(pos + 3, n),
                    None => s,
                }
            },
            _ => self.endpoint(),
        }
    }
}

/// Regions are equal when they are the same known region, or both custom
/// with the same payload.
pub open spec fn same_region(a: Region, b: Region) -> bool {
    match (a, b) {
        (Region::Custom(p), Region::Custom(q)) => p@ == q@,
        _ => a == b,
    }
}

/// A number for each variant, distinct across variants.
spec fn variant_index(r: Region) -> int {
    match r {
        Region::UsEast1 => 0,
        Region::UsEast2 => 1,
        Region::UsWest1 => 2,
        Region::UsWest2 => 3,
        Region::CaCentral1 => 4,
        Region::ApSouth1 => 5,
        Region::ApNortheast1 => 6,
        Region::ApNortheast2 => 7,
        Region::ApSoutheast1 => 8,
        Region::ApSoutheast2 => 9,
        Region::EuCentral1 => 10,
        Region::EuWest1 => 11,
        Region::EuWest2 => 12,
        Region::EuWest3 => 13,
        Region::SaEast1 => 14,
        Region::DoNyc3 => 15,
        Region::DoAms3 => 16,
        Region::DoSgp1 => 17,
        Region::Custom(_) => 18,
    }
}

impl Region {
    fn variant(&self) -> (r: u8)
        ensures
            r == variant_index(*self),
    {
        match self {
            Region::UsEast1 => 0,
            Region::UsEast2 => 1,
            Region::UsWest1 => 2,
            Region::UsWest2 => 3,
            Region::CaCentral1 => 4,
            Region::ApSouth1 => 5,
            Region::ApNortheast1 => 6,
            Region::ApNortheast2 => 7,
            Region::ApSoutheast1 => 8,
            Region::ApSoutheast2 => 9,
            Region::EuCentral1 => 10,
            Region::EuWest1 => 11,
            Region::EuWest2 => 12,
            Region::EuWest3 => 13,
            Region::SaEast1 => 14,
            Region::DoNyc3 => 15,
            Region::DoAms3 => 16,
            Region::DoSgp1 => 17,
            Region::Custom(_) => 18,
        }
    }
}

impl PartialEq for Region {
    fn eq(&self, o: &Region) -> (r: bool) {
        match (self, o) {
            (Region::Custom(p), Region::Custom(q)) => *p == *q,
            _ => self.variant() == o.variant(),
        }
    }
}

impl vstd::std_specs::cmp::PartialEqSpecImpl for Region {
    open spec fn obeys_eq_spec() -> bool {
        true
    }

    open spec fn eq_spec(&self, o: &Region) -> bool {
        same_region(*self, *o)
    }
}

impl core::str::FromStr for Region {
    type Err = core::convert::Infallible;

    fn from_str(s: &str) -> (r: Result<Region, core::convert::Infallible>)
        ensures
            r matches Ok(v) && parses_to(s@, v),
    {
        Ok(Region::parse(s))
    }
}

} // verus!
