//! The browser: how it is started, reached and kept track of.
use crate::cdp::{CDPConnection, CDPMessage, CDPMessageV, CDPMethod, CDPMethodV};
use crate::json::{bad_member, bad_member_text, str_member, FromJson, Json, JsonV};
use vstd::prelude::*;

verus! {

/// The decimal digit `d`.
pub open spec fn digit_char(d: nat) -> char {
    if d == 0 {
        '0'
    } else if d == 1 {
        '1'
    } else if d == 2 {
        '2'
    } else if d == 3 {
        '3'
    } else if d == 4 {
        '4'
    } else if d == 5 {
        '5'
    } else if d == 6 {
        '6'
    } else if d == 7 {
        '7'
    } else if d == 8 {
        '8'
    } else {
        '9'
    }
}

/// The decimal representation of `n`, without leading zeros.
pub open spec fn decimal_text(n: nat) -> Seq<char>
    decreases n,
{
    if n < 10 {
        seq![digit_char(n)]
    } else {
        decimal_text(n / 10).push(digit_char(n % 10))
    }
}

/// The number a decimal numeral stands for, read digit by digit from the
/// character codes (`'0'` is 48).
pub open spec fn numeral_value(s: Seq<char>) -> int
    decreases s.len(),
{
    if s.len() == 0 {
        0
    } else {
        numeral_value(s.drop_last()) * 10 + (s.last() as int - 48)
    }
}

/// Each digit is the character whose code is 48 (`'0'`) plus the digit.
pub proof fn lemma_digit_codes(d: nat)
    requires
        d < 10,
    ensures
        digit_char(d) as int == 48 + d,
{
}

/// `decimal_text(n)` is the decimal numeral of `n`: it is made of the
/// characters `0` to `9`, reads back as `n`, and starts with `0` only when
/// `n` is zero.
pub proof fn lemma_decimal_numeral(n: nat)
    ensures
        decimal_text(n).len() > 0,
        forall|i: int| 0 <= i < decimal_text(n).len() ==> 48 <= #[trigger] (decimal_text(n)[i] as int) <= 57,
        numeral_value(decimal_text(n)) == n,
        decimal_text(n)[0] == '0' ==> n == 0,
    decreases n,
{
    if n < 10 {
        lemma_digit_codes(n);
        let s = decimal_text(n);
        assert(s.drop_last() =~= Seq::<char>::empty());
        assert(numeral_value(s.drop_last()) == 0);
        assert(numeral_value(s) == numeral_value(s.drop_last()) * 10 + (s.last() as int - 48));
    } else {
        lemma_decimal_numeral(n / 10);
        lemma_digit_codes(n % 10);
        let s = decimal_text(n);
        assert(s.drop_last() =~= decimal_text(n / 10));
        assert(s.last() == digit_char(n % 10));
        assert(n == (n / 10) * 10 + n % 10);
        assert(numeral_value(s) == numeral_value(s.drop_last()) * 10 + (s.last() as int - 48));
        assert(numeral_value(s.drop_last()) == n / 10);
        assert forall|i: int| 0 <= i < s.len() implies 48 <= #[trigger] (s[i] as int) <= 57 by {
            if i < s.len() - 1 {
                assert(s[i] == decimal_text(n / 10)[i]);
            }
        }
        assert(s[0] == decimal_text(n / 10)[0]);
    }
}

/// The text of the digit `d`.
fn digit_text(d: u16) -> (r: &'static str)
    requires
        d < 10,
    ensures
        r@ == seq![digit_char(d as nat)],
{
    proof {
        reveal_strlit("0");
        reveal_strlit("1");
        reveal_strlit("2");
        reveal_strlit("3");
        reveal_strlit("4");
        reveal_strlit("5");
        reveal_strlit("6");
        reveal_strlit("7");
        reveal_strlit("8");
        reveal_strlit("9");
    }
    let r = match d {
        0 => "0",
        1 => "1",
        2 => "2",
        3 => "3",
        4 => "4",
        5 => "5",
        6 => "6",
        7 => "7",
        8 => "8",
        _ => "9",
    };
    assert(r@ =~= seq![digit_char(d as nat)]);
    r
}

/// `n` written in decimal, as `u16::to_string` writes it.
fn decimal(n: u16) -> (s: String)
    ensures
        s@ == decimal_text(n as nat),
    decreases n,
{
    if n < 10 {
        digit_text(n).to_owned()
    } else {
        let s = decimal(n / 10).concat(digit_text(n % 10));
        assert(s@ =~= decimal_text(n as nat));
        s
    }
}

/// The address of the browser's HTTP endpoint on `port`, followed by `path`.
pub open spec fn local_address(port: u16, path: Seq<char>) -> Seq<char> {
    "http://localhost:"@ + decimal_text(port as nat) + path
}

fn local_url(port: u16, path: &str) -> (r: String)
    ensures
        r@ == local_address(port, path@),
{
    "http://localhost:".to_owned().concat(decimal(port).as_str()).concat(path)
}

/// The address that tells whether a browser listens on `port`, and where its
/// web socket is.
pub fn version_url(port: u16) -> (r: String)
    ensures
        r@ == local_address(port, "/json/version"@),
{
    local_url(port, "/json/version")
}

/// The address that opens a new page at `url` in the browser on `port`.
pub fn new_target_url(port: u16, url: &str) -> (r: String)
    ensures
        r@ == local_address(port, "/json/new?"@ + url@),
{
    let path = "/json/new?".to_owned().concat(url);
    local_url(port, path.as_str())
}

/// The flag that makes the browser listen on `port`.
pub fn debugging_port_flag(port: u16) -> (r: String)
    ensures
        r@ == "--remote-debugging-port="@ + decimal_text(port as nat),
{
    "--remote-debugging-port=".to_owned().concat(decimal(port).as_str())
}

/// The command line arguments the browser is started with.
pub fn chrome_args(port: u16) -> (r: Vec<String>)
    ensures
        r@.len() == 4,
        r@[0]@ == "--headless"@,
        r@[1]@ == "--disable-gpu"@,
        r@[2]@ == "--no-sandbox"@,
        r@[3]@ == "--remote-debugging-port="@ + decimal_text(port as nat),
{
    let mut args: Vec<String> = Vec::new();
    args.push("--headless".to_owned());
    args.push("--disable-gpu".to_owned());
    args.push("--no-sandbox".to_owned());
    args.push(debugging_port_flag(port));
    args
}

/// The reply of the browser's `/json/version` address: where its web socket
/// is.
#[derive(Debug)]
pub struct VersionInfo {
    pub web_socket_debugger_url: String,
}

impl View for VersionInfo {
    type V = Seq<char>;

    open spec fn view(&self) -> Seq<char> {
        self.web_socket_debugger_url@
    }
}

impl FromJson for VersionInfo {
    /// `{"webSocketDebuggerUrl": string}`; other members are ignored.
    open spec fn spec_from_json(j: JsonV) -> Option<Seq<char>> {
        str_member(j, "webSocketDebuggerUrl"@)
    }

    fn from_json(j: &Json) -> (r: Option<VersionInfo>) {
        match j.str_member("webSocketDebuggerUrl") {
            Some(web_socket_debugger_url) => Some(VersionInfo { web_socket_debugger_url }),
            None => None,
        }
    }

    open spec fn spec_failure(j: JsonV) -> Seq<char> {
        bad_member("webSocketDebuggerUrl"@)
    }

    fn failure(j: &Json) -> (r: String) {
        bad_member_text("webSocketDebuggerUrl")
    }
}

/// How long, in milliseconds, to wait between two attempts to reach a
/// starting browser.
pub const POLL_INTERVAL_MS: u64 = 100;

/// After how long, in milliseconds, to stop waiting for a starting browser.
pub const GIVE_UP_AFTER_MS: u64 = 3000;

/// Waiting for a started browser to answer: the time already waited.
pub struct ConnectWait {
    elapsed_ms: u64,
}

impl View for ConnectWait {
    type V = nat;

    closed spec fn view(&self) -> nat {
        self.elapsed_ms as nat
    }
}

/// The time waited after `failures` failed attempts, waiting from the start.
pub open spec fn waited_after(failures: nat) -> nat {
    failures * (POLL_INTERVAL_MS as nat)
}

impl ConnectWait {
    /// Nothing waited yet.
    pub fn new() -> (w: ConnectWait)
        ensures
            w@ == 0,
    {
        ConnectWait { elapsed_ms: 0 }
    }

    /// The time waited so far.
    pub fn elapsed_ms(&self) -> (r: u64)
        ensures
            r == self@,
    {
        self.elapsed_ms
    }

    /// An attempt failed: give up (`true`) once more than the limit has been
    /// waited, and otherwise wait one more interval.
    pub fn on_failure(&mut self) -> (give_up: bool)
        ensures
            give_up == (old(self)@ > GIVE_UP_AFTER_MS),
            give_up ==> final(self)@ == old(self)@,
            !give_up ==> final(self)@ == old(self)@ + POLL_INTERVAL_MS,
    {
        if self.elapsed_ms > GIVE_UP_AFTER_MS {
            return true;
        }
        self.elapsed_ms = self.elapsed_ms + POLL_INTERVAL_MS;
        false
    }
}

/// Waiting for a starting browser, the first 31 failed attempts each wait
/// one more interval and the 32nd gives up: after `k` failures that did not
/// give up, the time waited is `k` intervals, and the next failure gives up
/// exactly when `k` is 31.
pub proof fn lemma_connect_attempts(k: nat)
    requires
        k <= 31,
    ensures
        (waited_after(k) > GIVE_UP_AFTER_MS) <==> k == 31,
        k < 31 ==> waited_after(k) + POLL_INTERVAL_MS == waited_after(k + 1),
{
    assert(waited_after(k) == k * 100) by (nonlinear_arith)
        requires
            waited_after(k) == k * (POLL_INTERVAL_MS as nat),
            POLL_INTERVAL_MS == 100,
    ;
    assert(waited_after(k + 1) == (k + 1) * 100) by (nonlinear_arith)
        requires
            waited_after(k + 1) == (k + 1) * (POLL_INTERVAL_MS as nat),
            POLL_INTERVAL_MS == 100,
    ;
}

/// An instance of a browser, reached over its web socket at `url`. The
/// browser listens on a local port and exchanges json messages over the
/// socket.
///
/// The process of a browser that was started here is held next to this
/// state, where processes are managed; `kill_on_drop` says whether that
/// process is killed when the browser is dropped.
#[derive(Debug)]
pub struct Browser {
    conn: CDPConnection,
    /// The local network address of chrome
    url: String,
    message_id: i32,
    kill_on_drop: bool,
    port: u16,
}

pub struct BrowserV {
    pub url: Seq<char>,
    pub message_id: i32,
    pub kill_on_drop: bool,
    pub port: u16,
}

impl View for Browser {
    type V = BrowserV;

    closed spec fn view(&self) -> BrowserV {
        BrowserV {
            url: self.url@,
            message_id: self.message_id,
            kill_on_drop: self.kill_on_drop,
            port: self.port,
        }
    }
}

impl Browser {
    /// A browser reached at `url` over `conn`, listening on `port`; it is
    /// killed on drop and its first request has id `0`.
    pub fn new(conn: CDPConnection, url: String, port: u16) -> (b: Browser)
        ensures
            b@ == (BrowserV { url: url@, message_id: 0, kill_on_drop: true, port }),
            b.connection() == conn,
    {
        Browser { conn, url, message_id: 0, kill_on_drop: true, port }
    }

    pub closed spec fn connection(&self) -> CDPConnection {
        self.conn
    }

    /// The connection to the browser itself.
    pub fn conn(&self) -> (r: &CDPConnection)
        ensures
            *r == self.connection(),
    {
        &self.conn
    }

    pub fn kill_on_drop(&mut self, value: bool)
        ensures
            final(self)@ == (BrowserV { kill_on_drop: value, ..old(self)@ }),
            final(self).connection() == old(self).connection(),
    {
        self.kill_on_drop = value;
    }

    /// Whether dropping the browser kills its process: only when it has one
    /// (it was started here) and is set to be killed on drop.
    pub fn kills_process_on_drop(&self, has_process: bool) -> (r: bool)
        ensures
            r == (self@.kill_on_drop && has_process),
    {
        self.kill_on_drop && has_process
    }

    pub fn url(&self) -> (r: String)
        ensures
            r@ == self@.url,
    {
        self.url.clone()
    }

    /// The id of the next listing of the targets.
    pub fn message_id(&self) -> (r: i32)
        ensures
            r == self@.message_id,
    {
        self.message_id
    }

    pub fn port(&self) -> (r: u16)
        ensures
            r == self@.port,
    {
        self.port
    }

    /// The request that lists the targets, under the browser's current id.
    pub fn targets_request(&self) -> (m: CDPMessage)
        ensures
            m@ == (CDPMessageV {
                id: self@.message_id,
                session_id: None,
                method: CDPMethodV::GetTargets,
            }),
    {
        CDPMessage::root(self.message_id, CDPMethod::GetTargets)
    }

    /// The targets were received: the next request gets the next id.
    pub fn targets_received(&mut self)
        requires
            old(self)@.message_id < i32::MAX,
        ensures
            final(self)@ == (BrowserV { message_id: (old(self)@.message_id + 1) as i32, ..old(self)@ }),
            final(self).connection() == old(self).connection(),
    {
        self.message_id = self.message_id + 1;
    }

    /// The address that opens a new (example) page in the browser.
    pub fn new_page_url(&self) -> (r: String)
        ensures
            r@ == local_address(self@.port, "/json/new?"@ + "https://example.com"@),
    {
        new_target_url(self.port, "https://example.com")
    }

    /// The address that opens a new page at `url` in the browser.
    pub fn goto_url(&self, url: &str) -> (r: String)
        ensures
            r@ == local_address(self@.port, "/json/new?"@ + url@),
    {
        new_target_url(self.port, url)
    }
}


/// The browser's HTTP addresses are on `localhost`, at the port in decimal.
pub proof fn lemma_local_address(port: u16, path: Seq<char>)
    ensures
        local_address(port, path) == "http://localhost:"@ + decimal_text(port as nat) + path,
        numeral_value(decimal_text(port as nat)) == port,
{
    lemma_decimal_numeral(port as nat);
}

} // verus!
