//! What the client of a telescope mount decides: how a mount is named, which
//! way it is asked to move, and what an answer of the mount's server means.

use vstd::prelude::*;
use crate::text::{lowercase_of, same_chars, same_text, to_lowercase, chars_of};

verus! {

/// How a mount is reached.
#[derive(Debug, Clone, PartialEq, Eq)]
pub enum TelescopeConnection {
    /// Over the network, at a server and a device number on it.
    Alpaca { url: String, device_number: u32 },
    /// Through a driver installed on this machine.
    Local { prog_id: String },
}

/// The mathematical value of a [`TelescopeConnection`].
pub ghost enum TelescopeConnectionView {
    Alpaca { url: Seq<char>, device_number: u32 },
    Local { prog_id: Seq<char> },
}

impl View for TelescopeConnection {
    type V = TelescopeConnectionView;

    open spec fn view(&self) -> TelescopeConnectionView {
        match self {
            TelescopeConnection::Alpaca { url, device_number } => TelescopeConnectionView::Alpaca {
                url: url@,
                device_number: *device_number,
            },
            TelescopeConnection::Local { prog_id } => TelescopeConnectionView::Local {
                prog_id: prog_id@,
            },
        }
    }
}

/// The way a manual slew goes.
#[derive(Debug, Clone, Copy, PartialEq, Eq, Structural)]
pub enum SlewDirection {
    North,
    South,
    East,
    West,
}

/// The axis of a mount.
#[derive(Debug, Clone, Copy, PartialEq, Eq, Structural)]
pub enum TelescopeAxis {
    /// Right ascension or azimuth.
    Primary,
    /// Declination or altitude.
    Secondary,
}

/// The form that sets the connected flag of a remote device.
#[derive(Debug, Clone, Copy, PartialEq, Eq, Structural)]
pub struct ConnectedRequest {
    pub connected: bool,
    pub client_transaction_id: u32,
}

/// The identifier under which this client talks to a server.
pub const CLIENT_ID: u32 = 42;

/// The server that a local driver is reached through.
pub const LOCAL_SERVER_URL: &'static str = "http://localhost:11111";

/// The direction named by a word that is already in lower case.
pub open spec fn direction_of(lowered: Seq<char>) -> Option<SlewDirection> {
    if lowered == "north"@ {
        Some(SlewDirection::North)
    } else if lowered == "south"@ {
        Some(SlewDirection::South)
    } else if lowered == "east"@ {
        Some(SlewDirection::East)
    } else if lowered == "west"@ {
        Some(SlewDirection::West)
    } else {
        None
    }
}

/// Reads a direction from a word that is already in lower case.
pub fn direction_of_lowered(lowered: &str) -> (r: Option<SlewDirection>)
    ensures
        r == direction_of(lowered@),
{
    if same_text(lowered, "north") {
        Some(SlewDirection::North)
    } else if same_text(lowered, "south") {
        Some(SlewDirection::South)
    } else if same_text(lowered, "east") {
        Some(SlewDirection::East)
    } else if same_text(lowered, "west") {
        Some(SlewDirection::West)
    } else {
        None
    }
}

/// Reads a direction from a word, whatever its case: the direction is that
/// of the word in lower case.
pub fn parse_slew_direction(word: &str) -> (r: Option<SlewDirection>)
    ensures
        r == direction_of(lowercase_of(word@)),
        crate::text::is_ascii_text(word@) ==> r == direction_of(
            crate::text::ascii_lowercase(word@),
        ),
{
    let lowered = to_lowercase(word);
    direction_of_lowered(lowered.as_str())
}

/// `s` without the slashes at its end.
pub open spec fn without_trailing_slashes(s: Seq<char>) -> Seq<char>
    decreases s.len(),
{
    if s.len() > 0 && s.last() == '/' {
        without_trailing_slashes(s.drop_last())
    } else {
        s
    }
}

/// The address of an endpoint of a mount: the address of the server without
/// the slashes at its end, the path of the device, and the endpoint.
pub open spec fn endpoint_url(base: Seq<char>, device_number: u32, endpoint: Seq<char>) -> Seq<
    char,
> {
    without_trailing_slashes(base) + "/api/v1/telescope/"@ + crate::text::decimal_digits(
        device_number as nat,
    ) + "/"@ + endpoint
}

proof fn lemma_trailing_slashes(s: Seq<char>, end: int)
    requires
        0 <= end <= s.len(),
        forall|k: int| end <= k < s.len() ==> s[k] == '/',
    ensures
        without_trailing_slashes(s) == without_trailing_slashes(s.take(end)),
    decreases s.len() - end,
{
    if end == s.len() {
        assert(s.take(end) =~= s);
    } else {
        assert(s.last() == '/');
        lemma_trailing_slashes(s.drop_last(), end);
        assert(s.drop_last().take(end) =~= s.take(end));
    }
}

/// Writes the address of an endpoint of a mount.
pub fn endpoint_url_text(base: &str, device_number: u32, endpoint: &str) -> (r: String)
    ensures
        r@ == endpoint_url(base@, device_number, endpoint@),
{
    let chars = chars_of(base);
    let mut end: usize = chars.len();
    while end > 0 && chars[end - 1] == '/'
        invariant
            end <= chars.len(),
            forall|k: int| end <= k < chars.len() ==> chars@[k] == '/',
        decreases end,
    {
        end -= 1;
    }
    proof {
        lemma_trailing_slashes(base@, end as int);
        let stem = base@.take(end as int);
        if stem.len() > 0 {
            assert(stem.last() == chars@[end - 1]);
        }
        assert(without_trailing_slashes(stem) == stem);
        assert(stem =~= base@.subrange(0, end as int));
    }
    let digits = crate::text::decimal_text(device_number as u64);
    String::from_str(base.substring_char(0, end)).concat("/api/v1/telescope/").concat(
        digits.as_str(),
    ).concat("/").concat(endpoint)
}

/// What `url::Url::parse` makes of a text: the address in its normal form, or
/// the description of what is wrong with it.
pub uninterp spec fn url_parsed(text: Seq<char>) -> Result<Seq<char>, Seq<char>>;

/// The view of a parsed address.
pub open spec fn parsed_view(parsed: Result<String, String>) -> Result<Seq<char>, Seq<char>> {
    match parsed {
        Ok(url) => Ok(url@),
        Err(detail) => Err(detail@),
    }
}

/// Calls `url::Url::parse` and writes the address, or the error, as text.
/// The result depends on the text alone.
#[verifier::external_body]
fn parse_url(text: &str) -> (r: Result<String, String>)
    ensures
        parsed_view(r) == url_parsed(text@),
{
    match url::Url::parse(text) {
        Ok(url) => Ok(url.into()),
        Err(error) => Err(error.to_string()),
    }
}

/// The view of the address of an endpoint.
pub open spec fn address_view(address: Result<String, crate::errors::BridgeError>) -> Result<
    Seq<char>,
    crate::errors::BridgeErrorView,
> {
    match address {
        Ok(url) => Ok(url@),
        Err(error) => Err(error@),
    }
}

/// What a parsed address means to the caller: the address, or an invalid
/// response with the description of what is wrong.
pub open spec fn address_of(parsed: Result<Seq<char>, Seq<char>>) -> Result<
    Seq<char>,
    crate::errors::BridgeErrorView,
> {
    match parsed {
        Ok(url) => Ok(url),
        Err(detail) => Err(crate::errors::BridgeErrorView::InvalidResponse(detail)),
    }
}

/// Turns a parsed address into what the caller is told.
pub fn checked_address(parsed: Result<String, String>) -> (r: Result<
    String,
    crate::errors::BridgeError,
>)
    ensures
        address_view(r) == address_of(parsed_view(parsed)),
{
    match parsed {
        Ok(url) => Ok(url),
        Err(detail) => Err(crate::errors::BridgeError::InvalidResponse(detail)),
    }
}

/// The address of an endpoint of a mount, checked: the server's address, the
/// device and the endpoint are put together and parsed as an address.
pub fn build_url(base: &str, device_number: u32, endpoint: &str) -> (r: Result<
    String,
    crate::errors::BridgeError,
>)
    ensures
        address_view(r) == address_of(url_parsed(endpoint_url(base@, device_number, endpoint@))),
{
    let text = endpoint_url_text(base, device_number, endpoint);
    checked_address(parse_url(text.as_str()))
}

/// A request to connect to a mount, as it arrives.
#[derive(Debug, Clone, PartialEq, Eq)]
pub struct TelescopeConnectRequest {
    /// `alpaca` or `local`.
    pub connection_type: String,
    pub url: Option<String>,
    pub device_number: Option<u32>,
    pub prog_id: Option<String>,
}

/// The mathematical value of a [`TelescopeConnectRequest`].
pub ghost struct TelescopeConnectRequestView {
    pub connection_type: Seq<char>,
    pub url: Option<Seq<char>>,
    pub device_number: Option<u32>,
    pub prog_id: Option<Seq<char>>,
}

impl View for TelescopeConnectRequest {
    type V = TelescopeConnectRequestView;

    open spec fn view(&self) -> TelescopeConnectRequestView {
        TelescopeConnectRequestView {
            connection_type: self.connection_type@,
            url: crate::device_state::text_view(self.url),
            device_number: self.device_number,
            prog_id: crate::device_state::text_view(self.prog_id),
        }
    }
}

/// The connection that a request asks for, or the sentence that turns the
/// request down.
pub open spec fn requested_connection(request: TelescopeConnectRequestView) -> Result<
    TelescopeConnectionView,
    Seq<char>,
> {
    if request.connection_type == "alpaca"@ {
        match request.url {
            Some(url) => Ok(
                TelescopeConnectionView::Alpaca {
                    url,
                    device_number: match request.device_number {
                        Some(n) => n,
                        None => 0,
                    },
                },
            ),
            None => Err("URL required for Alpaca connection"@),
        }
    } else if request.connection_type == "local"@ {
        match request.prog_id {
            Some(prog_id) => Ok(TelescopeConnectionView::Local { prog_id }),
            None => Err("ProgID required for local connection"@),
        }
    } else {
        Err("Invalid connection type. Use 'alpaca' or 'local'"@)
    }
}

/// The view of a checked request.
pub open spec fn connection_view(result: Result<TelescopeConnection, String>) -> Result<
    TelescopeConnectionView,
    Seq<char>,
> {
    match result {
        Ok(connection) => Ok(connection@),
        Err(message) => Err(message@),
    }
}

/// Checks a request to connect to a mount: a network connection needs an
/// address and takes device zero where none is named, a local one needs the
/// identifier of the driver.
pub fn telescope_connection_of(request: TelescopeConnectRequest) -> (r: Result<
    TelescopeConnection,
    String,
>)
    ensures
        connection_view(r) == requested_connection(request@),
{
    if same_text(request.connection_type.as_str(), "alpaca") {
        match request.url {
            Some(url) => {
                let device_number = match request.device_number {
                    Some(n) => n,
                    None => 0,
                };
                Ok(TelescopeConnection::Alpaca { url, device_number })
            },
            None => Err(String::from_str("URL required for Alpaca connection")),
        }
    } else if same_text(request.connection_type.as_str(), "local") {
        match request.prog_id {
            Some(prog_id) => Ok(TelescopeConnection::Local { prog_id }),
            None => Err(String::from_str("ProgID required for local connection")),
        }
    } else {
        Err(String::from_str("Invalid connection type. Use 'alpaca' or 'local'"))
    }
}

/// The views of a sequence of texts.
pub open spec fn text_views(texts: Seq<String>) -> Seq<Seq<char>> {
    texts.map_values(|t: String| t@)
}

/// The names in `found` followed by each name of `more` that is not yet in the
/// list when its turn comes.
pub open spec fn merged_names(found: Seq<Seq<char>>, more: Seq<Seq<char>>) -> Seq<Seq<char>>
    decreases more.len(),
{
    if more.len() == 0 {
        found
    } else {
        let front = merged_names(found, more.drop_last());
        if front.contains(more.last()) {
            front
        } else {
            front.push(more.last())
        }
    }
}

fn holds_name(names: &Vec<String>, name: &str) -> (r: bool)
    ensures
        r == text_views(names@).contains(name@),
{
    let wanted = chars_of(name);
    let mut i: usize = 0;
    while i < names.len()
        invariant
            i <= names.len(),
            wanted@ == name@,
            forall|k: int| 0 <= k < i ==> text_views(names@)[k] != name@,
        decreases names.len() - i,
    {
        let have = chars_of(names[i].as_str());
        if same_chars(&have, &wanted) {
            assert(text_views(names@)[i as int] == name@);
            return true;
        }
        i += 1;
    }
    false
}

/// Puts together the telescope drivers registered on this machine: those of
/// the native registry view, then those of the 32-bit view that are not yet in
/// the list. Where no registry exists both lists are empty, and so is the
/// result.
pub fn discover_local_ascom_telescopes(native: Vec<String>, compatibility: Vec<String>) -> (r: Vec<
    String,
>)
    ensures
        text_views(r@) == merged_names(text_views(native@), text_views(compatibility@)),
{
    let mut out = native;
    let mut i: usize = 0;
    assert(text_views(compatibility@).take(0) =~= Seq::<Seq<char>>::empty());
    while i < compatibility.len()
        invariant
            i <= compatibility.len(),
            text_views(out@) == merged_names(
                text_views(native@),
                text_views(compatibility@).take(i as int),
            ),
        decreases compatibility.len() - i,
    {
        let ghost before = text_views(out@);
        let ghost upto = text_views(compatibility@).take(i + 1);
        proof {
            assert(upto.drop_last() =~= text_views(compatibility@).take(i as int));
            assert(upto.last() == compatibility@[i as int]@);
        }
        if !holds_name(&out, compatibility[i].as_str()) {
            out.push(compatibility[i].clone());
            assert(text_views(out@) =~= before.push(compatibility@[i as int]@));
        }
        i += 1;
    }
    assert(text_views(compatibility@).take(i as int) =~= text_views(compatibility@));
    out
}

} // verus!
