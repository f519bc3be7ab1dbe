//! Account verification: UID checks, verification codes, the verification
//! page, and the decisions of the verification endpoints.
use vstd::prelude::*;

use rand::Rng;
use vstd::string::StringSliceAdditionalSpecFns;

use crate::error::AppError;
use crate::json::{lookup, entries_view, JsonValueView, get_str, get_i64};
use crate::player::PlayerInfo;
use crate::text::{chars_of, push_char, str_contains, contains_seq, decimal, append_decimal};
use crate::schema::concat3;

verus! {

/// Query parameters of the OAuth callback.
#[derive(Debug)]
pub struct CallbackQuery {
    pub code: Option<String>,
    pub state: String,
    pub error: Option<String>,
}

/// Body of a request to start verification.
#[derive(Debug)]
pub struct StartBody {
    pub uid: String,
}

// ----- UIDs -----

pub const MSG_UID_LENGTH: &'static str = "UID must be 9-10 digits";

pub const MSG_UID_DIGITS: &'static str = "UID must contain only digits";

/// Whether every character is an ASCII digit.
pub open spec fn is_ascii_digits(s: Seq<char>) -> bool {
    forall|i: int| 0 <= i < s.len() ==> '0' <= #[trigger] s[i] && s[i] <= '9'
}

/// Why a UID is refused, if it is: 9 or 10 bytes, all ASCII digits.
pub open spec fn uid_problem(uid: &str) -> Option<Seq<char>> {
    if uid.len() < 9 || uid.len() > 10 {
        Some(MSG_UID_LENGTH@)
    } else if !is_ascii_digits(uid@) {
        Some(MSG_UID_DIGITS@)
    } else {
        None
    }
}

pub fn validate_uid(uid: &str) -> (r: Result<(), AppError>)
    ensures
        match uid_problem(uid) {
            None => r is Ok,
            Some(m) => r is Err && r->Err_0 is BadRequest && r->Err_0->BadRequest_0@ == m,
        },
{
    if uid.len() < 9 || uid.len() > 10 {
        return Err(AppError::bad_request(MSG_UID_LENGTH));
    }
    let v: Vec<char> = chars_of(uid);
    let n: usize = v.len();
    let mut i: usize = 0;
    while i < n
        invariant
            v@ == uid@,
            n == v@.len(),
            i <= n,
            9 <= uid.len() <= 10,
            forall|k: int| 0 <= k < i ==> '0' <= #[trigger] v@[k] && v@[k] <= '9',
        decreases n - i,
    {
        if !('0' <= v[i] && v[i] <= '9') {
            return Err(AppError::bad_request(MSG_UID_DIGITS));
        }
        i = i + 1;
    }
    Ok(())
}

/// A valid UID is 9 or 10 ASCII digits.
pub proof fn valid_uid_is_nine_or_ten_digits(uid: &str)
    requires
        uid_problem(uid) is None,
        uid.spec_bytes().len() <= usize::MAX,
    ensures
        9 <= uid@.len() <= 10,
        is_ascii_digits(uid@),
{
    vstd::utf8::is_ascii_chars_encode_utf8(uid@);
}

// ----- Verification codes -----

/// The characters of verification codes (no 0, O, 1, I).
pub const CODE_ALPHABET: &'static str = "ABCDEFGHJKLMNPQRSTUVWXYZ23456789";

/// The start of every verification code.
pub const CODE_PREFIX: &'static str = "GR-";

/// The number of random characters in a verification code.
pub const CODE_LENGTH: usize = 6;

/// A random index below `n`.
///
/// Trusted: calls `rand::thread_rng().gen_range(0..n)`, which returns a
/// value of the half-open range (a non-empty one here). Which value is not
/// stated.
#[verifier::external_body]
fn random_below(n: usize) -> (r: usize)
    requires
        n > 0,
    ensures
        r < n,
{
    rand::thread_rng().gen_range(0..n)
}

/// Whether a text is a verification code: the prefix, then six characters
/// of the code alphabet.
pub open spec fn is_verification_code(s: Seq<char>) -> bool {
    &&& s.len() == CODE_PREFIX@.len() + CODE_LENGTH
    &&& s.subrange(0, CODE_PREFIX@.len() as int) == CODE_PREFIX@
    &&& forall|i: int| CODE_PREFIX@.len() <= i < s.len() ==> CODE_ALPHABET@.contains(#[trigger] s[i])
}

/// The code the indices `idx` pick: the prefix, then the alphabet's
/// character at each index.
pub open spec fn code_for(idx: Seq<usize>) -> Seq<char> {
    CODE_PREFIX@ + Seq::new(idx.len(), |i: int| CODE_ALPHABET@[idx[i] as int])
}

/// The verification code for six drawn indices into the code alphabet.
pub fn code_from_indices(idx: &[usize]) -> (r: String)
    requires
        idx@.len() == CODE_LENGTH,
        forall|i: int| 0 <= i < idx@.len() ==> idx@[i] < 32,
    ensures
        r@ == code_for(idx@),
        is_verification_code(r@),
{
    let chars: Vec<char> = chars_of(CODE_ALPHABET);
    let mut code: String = String::from_str(CODE_PREFIX);
    proof {
        reveal_strlit("ABCDEFGHJKLMNPQRSTUVWXYZ23456789");
        reveal_strlit("GR-");
    }
    let mut k: usize = 0;
    while k < idx.len()
        invariant
            chars@ == CODE_ALPHABET@,
            chars@.len() == 32,
            idx@.len() == CODE_LENGTH,
            forall|i: int| 0 <= i < idx@.len() ==> idx@[i] < 32,
            k <= idx@.len(),
            code@ == CODE_PREFIX@ + Seq::new(k as nat, |i: int| CODE_ALPHABET@[idx@[i] as int]),
        decreases idx@.len() - k,
    {
        let j: usize = idx[k];
        push_char(&mut code, chars[j]);
        k = k + 1;
        assert(code@ =~= CODE_PREFIX@ + Seq::new(k as nat, |i: int| CODE_ALPHABET@[idx@[i] as int]));
    }
    assert(code@ =~= code_for(idx@));
    proof {
        assert(code@.subrange(0, CODE_PREFIX@.len() as int) =~= CODE_PREFIX@);
        assert forall|i: int| CODE_PREFIX@.len() <= i < code@.len() implies CODE_ALPHABET@.contains(
            #[trigger] code@[i],
        ) by {
            let j = idx@[i - 3] as int;
            assert(code@[i] == CODE_ALPHABET@[j]);
        }
    }
    code
}

/// A fresh random verification code: the code of six indices drawn at
/// random below the alphabet's length.
pub fn generate_code() -> (r: String)
    ensures
        exists|idx: Seq<usize>|
            idx.len() == CODE_LENGTH && (forall|i: int| 0 <= i < idx.len() ==> #[trigger] idx[i] < 32)
                && r@ == code_for(idx),
        is_verification_code(r@),
{
    let mut idx: Vec<usize> = Vec::new();
    while idx.len() < CODE_LENGTH
        invariant
            idx@.len() <= CODE_LENGTH,
            forall|i: int| 0 <= i < idx@.len() ==> idx@[i] < 32,
        decreases CODE_LENGTH - idx@.len(),
    {
        let j: usize = random_below(32);
        idx.push(j);
    }
    code_from_indices(idx.as_slice())
}

/// A random ASCII letter or digit.
///
/// Trusted: samples `rand::distributions::Alphanumeric`, documented to give a
/// byte uniformly among `a-z`, `A-Z` and `0-9`, and widens it to a `char`.
/// Which one is not stated.
#[verifier::external_body]
fn random_alphanumeric() -> (c: char)
    ensures
        is_ascii_alphanumeric(c),
{
    char::from(rand::thread_rng().sample(rand::distributions::Alphanumeric))
}

pub open spec fn is_ascii_alphanumeric(c: char) -> bool {
    ('a' <= c && c <= 'z') || ('A' <= c && c <= 'Z') || ('0' <= c && c <= '9')
}

/// The length of the OAuth state parameter.
pub const OAUTH_STATE_LENGTH: usize = 32;

/// The OAuth state parameter made of the drawn characters, in order.
pub fn oauth_state_from(chars: &[char]) -> (r: String)
    requires
        chars@.len() == OAUTH_STATE_LENGTH,
        forall|i: int| 0 <= i < chars@.len() ==> is_ascii_alphanumeric(#[trigger] chars@[i]),
    ensures
        r@ == chars@,
{
    let mut s: String = String::new();
    let mut k: usize = 0;
    while k < chars.len()
        invariant
            k <= chars@.len(),
            s@ == chars@.subrange(0, k as int),
        decreases chars@.len() - k,
    {
        push_char(&mut s, chars[k]);
        k = k + 1;
        assert(s@ =~= chars@.subrange(0, k as int));
    }
    assert(chars@.subrange(0, chars@.len() as int) =~= chars@);
    s
}

/// A fresh random OAuth state parameter: 32 drawn ASCII letters and digits.
pub fn generate_oauth_state() -> (r: String)
    ensures
        exists|cs: Seq<char>|
            cs.len() == OAUTH_STATE_LENGTH && (forall|i: int|
                0 <= i < cs.len() ==> is_ascii_alphanumeric(#[trigger] cs[i])) && r@ == cs,
{
    let mut chars: Vec<char> = Vec::new();
    while chars.len() < OAUTH_STATE_LENGTH
        invariant
            chars@.len() <= OAUTH_STATE_LENGTH,
            forall|i: int| 0 <= i < chars@.len() ==> is_ascii_alphanumeric(#[trigger] chars@[i]),
        decreases OAUTH_STATE_LENGTH - chars@.len(),
    {
        let c: char = random_alphanumeric();
        chars.push(c);
    }
    oauth_state_from(chars.as_slice())
}

// ----- The verification page -----

/// The page up to the favicon link's base URL.
pub const VERIFY_PAGE_PART_0: &'static str = "<!DOCTYPE html>
<html>
<head>
    <meta charset=\"utf-8\">
    <meta name=\"viewport\" content=\"width=device-width, initial-scale=1\">
    <title>Genshin Roles - Link Account</title>
    <link rel=\"icon\" href=\"";

/// The page between the favicon link and the page URL.
pub const VERIFY_PAGE_PART_1: &'static str = "/favicon.ico\" type=\"image/x-icon\">
    <meta name=\"description\" content=\"Link your Discord account with your Genshin Impact UID to automatically receive server roles based on your in-game progress.\">
    <meta property=\"og:type\" content=\"website\">
    <meta property=\"og:title\" content=\"Genshin Roles - Link Account\">
    <meta property=\"og:description\" content=\"Link your Discord account with your Genshin Impact UID to automatically receive server roles based on your in-game progress.\">
    <meta property=\"og:url\" content=\"";

/// The page between the page URL and the login link.
pub const VERIFY_PAGE_PART_2: &'static str = "/verify\">
    <meta name=\"twitter:card\" content=\"summary\">
    <meta name=\"twitter:title\" content=\"Genshin Roles - Link Account\">
    <meta name=\"twitter:description\" content=\"Link your Discord account with your Genshin Impact UID to automatically receive server roles based on your in-game progress.\">
    <meta name=\"theme-color\" content=\"#e8b44a\">
    <style>
        * { box-sizing: border-box; margin: 0; padding: 0; }
        body { font-family: system-ui, -apple-system, sans-serif; max-width: 580px; margin: 0 auto; padding: 32px 20px; background: #0e1525; color: #c8ccd4; min-height: 100vh; }
        h1 { color: #e8b44a; font-size: 24px; margin-bottom: 4px; }
        h2 { color: #fff; font-size: 17px; margin-bottom: 14px; }
        p { line-height: 1.6; margin: 6px 0; font-size: 14px; }
        a { color: #74b9ff; }
        .subtitle { color: #7a8299; font-size: 14px; margin-bottom: 20px; }
        .card { background: #161d2e; padding: 22px; border-radius: 10px; margin: 14px 0; border: 1px solid #1e2a3d; }
        .btn { display: inline-flex; align-items: center; gap: 8px; padding: 10px 22px; color: #fff; text-decoration: none; border-radius: 6px; font-size: 14px; font-weight: 500; border: none; cursor: pointer; font-family: inherit; transition: background .15s; }
        .btn-discord { background: #5865f2; }
        .btn-discord:hover { background: #4752c4; }
        .btn-primary { background: #3b82f6; }
        .btn-primary:hover { background: #2563eb; }
        .btn-success { background: #22c55e; }
        .btn-success:hover { background: #16a34a; }
        .btn-danger { background: transparent; color: #f87171; border: 1px solid #7f1d1d; font-size: 13px; padding: 8px 16px; }
        .btn-danger:hover { background: #7f1d1d33; }
        .btn-secondary { background: transparent; color: #94a3b8; border: 1px solid #334155; font-size: 13px; padding: 8px 16px; }
        .btn-secondary:hover { background: #1e293b; }
        .btn:disabled { opacity: 0.5; cursor: not-allowed; }
        input { padding: 10px 14px; font-size: 15px; border-radius: 6px; border: 1px solid #2a3548; background: #0e1525; color: #e0e0e0; width: 100%; max-width: 240px; font-family: inherit; transition: border-color .15s; }
        input:focus { outline: none; border-color: #3b82f6; }
        .code-box { background: #0e1525; border: 2px dashed #e8b44a55; border-radius: 8px; padding: 16px; text-align: center; margin: 14px 0; }
        .code { font-size: 30px; font-weight: 700; color: #e8b44a; letter-spacing: 4px; font-family: 'Courier New', monospace; user-select: all; }
        .badge { display: inline-block; padding: 3px 10px; border-radius: 20px; font-size: 12px; font-weight: 500; }
        .badge-ok { background: #052e16; color: #4ade80; border: 1px solid #14532d; }
        .badge-wait { background: #1c1917; color: #fbbf24; border: 1px solid #422006; }
        .msg { padding: 10px 14px; border-radius: 6px; margin: 12px 0; font-size: 13px; line-height: 1.5; }
        .msg-error { background: #1c0a0a; color: #fca5a5; border: 1px solid #7f1d1d; }
        .msg-success { background: #052e16; color: #86efac; border: 1px solid #14532d; }
        .steps { margin: 12px 0; padding-left: 20px; }
        .steps li { margin: 6px 0; font-size: 14px; line-height: 1.6; color: #94a3b8; }
        .steps li strong { color: #e2e8f0; }
        .note { font-size: 12px; color: #64748b; margin-top: 10px; font-style: italic; }
        .trust-note { font-size: 13px; color: #94a3b8; background: #111827; border-left: 3px solid #3b82f6; padding: 10px 14px; border-radius: 0 6px 6px 0; margin: 10px 0; line-height: 1.6; }
        .trust-note strong { color: #e2e8f0; }
        .trust-note a { color: #74b9ff; }
        .info-row { display: flex; align-items: center; gap: 8px; margin: 6px 0; font-size: 14px; }
        .info-row .label { color: #64748b; min-width: 80px; }
        .info-row .val { color: #e8b44a; font-weight: 600; }
        .actions { display: flex; gap: 8px; margin-top: 16px; flex-wrap: wrap; }
        .hidden { display: none !important; }
        .divider { border: none; border-top: 1px solid #1e293b; margin: 16px 0; }
    </style>
</head>
<body>
    <div style=\"display:flex; align-items:center; gap:10px; margin-bottom:4px;\">
        <h1 style=\"margin:0;\">Genshin Roles</h1>
        <span style=\"font-size:11px; color:#64748b; background:#1e293b; padding:2px 8px; border-radius:4px;\">Powered by <a href=\"https://rolelogic.faizo.net\" target=\"_blank\" rel=\"noopener\" style=\"color:#74b9ff; text-decoration:none;\">RoleLogic</a></span>
    </div>
    <p class=\"subtitle\">Link your Discord account with your Genshin Impact UID to automatically receive server roles based on your in-game progress.</p>

    <!-- Loading -->
    <div id=\"loading-section\" class=\"card\">
        <p style=\"color: #64748b;\">Loading...</p>
    </div>

    <!-- Login -->
    <div id=\"login-section\" class=\"card hidden\">
        <h2>Step 1: Sign in with Discord</h2>
        <p>Sign in so we know which Discord account to assign roles to.</p>
        <p class=\"trust-note\">We request the <strong>identify</strong> and <strong>guilds</strong> scopes — we cannot read your messages, join servers, or access anything else on your account.</p>
        <div class=\"actions\">
            <a href=\"";

/// The page after the login link.
pub const VERIFY_PAGE_PART_3: &'static str = "\" class=\"btn btn-discord\">
                <svg width=\"20\" height=\"15\" viewBox=\"0 0 71 55\" fill=\"white\"><path d=\"M60.1 4.9A58.5 58.5 0 0045.4.2a.2.2 0 00-.2.1 40.8 40.8 0 00-1.8 3.7 54 54 0 00-16.2 0A37.3 37.3 0 0025.4.3a.2.2 0 00-.2-.1A58.4 58.4 0 0010.6 4.9a.2.2 0 00-.1.1C1.5 18 -.9 30.6.3 43a.2.2 0 00.1.2 58.7 58.7 0 0017.7 9 .2.2 0 00.3-.1 42 42 0 003.6-5.9.2.2 0 00-.1-.3 38.6 38.6 0 01-5.5-2.6.2.2 0 01 0-.4l1.1-.9a.2.2 0 01.2 0 41.9 41.9 0 0035.6 0 .2.2 0 01.2 0l1.1.9a.2.2 0 010 .3 36.3 36.3 0 01-5.5 2.7.2.2 0 00-.1.3 47.2 47.2 0 003.6 5.9.2.2 0 00.3.1A58.5 58.5 0 0070.3 43a.2.2 0 00.1-.2c1.4-14.7-2.4-27.5-10.2-38.8a.2.2 0 00-.1 0zM23.7 35.3c-3.4 0-6.1-3.1-6.1-6.8s2.7-6.9 6.1-6.9 6.2 3.1 6.1 6.9c0 3.7-2.7 6.8-6.1 6.8zm22.6 0c-3.4 0-6.1-3.1-6.1-6.8s2.7-6.9 6.1-6.9 6.2 3.1 6.1 6.9c0 3.7-2.7 6.8-6.1 6.8z\"/></svg>
                Login with Discord
            </a>
        </div>
    </div>

    <!-- Linked -->
    <div id=\"linked-section\" class=\"card hidden\">
        <div style=\"display:flex; align-items:center; gap:10px; margin-bottom:14px;\">
            <h2 style=\"margin:0;\">Account Linked</h2>
            <span class=\"badge badge-ok\">Verified</span>
        </div>
        <div class=\"info-row\"><span class=\"label\">Genshin</span> <span class=\"val\" id=\"linked-uid\"></span></div>
        <div class=\"info-row\"><span class=\"label\">Discord</span> <span class=\"val\" id=\"linked-discord\" style=\"color:#94a3b8;font-weight:400;font-size:13px;\"></span></div>
        <p style=\"color:#4ade80; margin-top:12px; font-size:13px;\">Your roles are assigned automatically based on your player data.</p>
        <p class=\"note\">You can safely change your in-game signature back now.</p>
        <hr class=\"divider\">
        <div class=\"actions\">
            <button class=\"btn btn-danger\" onclick=\"doUnlink()\">Unlink Account</button>
        </div>
    </div>

    <!-- UID entry -->
    <div id=\"uid-section\" class=\"card hidden\">
        <h2>Step 2: Enter Your Genshin UID</h2>
        <p>Signed in as <span id=\"uid-discord\" style=\"color:#74b9ff;\"></span></p>
        <p style=\"margin-bottom:12px;\">Your UID is the number at the bottom-right of the in-game screen, or in the Paimon Menu.</p>
        <div style=\"display:flex; gap:10px; align-items:center; flex-wrap:wrap;\">
            <input type=\"text\" id=\"uid-input\" placeholder=\"e.g. 800000001\" maxlength=\"10\" inputmode=\"numeric\" />
            <button class=\"btn btn-primary\" id=\"start-btn\" onclick=\"doStart()\">Continue</button>
        </div>
        <p class=\"trust-note\">We only read your public profile (Adventure Rank, achievements, etc.) using <a href=\"https://enka.network\" target=\"_blank\" rel=\"noopener\">Enka.Network</a> — a widely used, read-only Genshin API. We have no access to your account, password, or any private data.</p>
    </div>

    <!-- Verify -->
    <div id=\"verify-section\" class=\"card hidden\">
        <div style=\"display:flex; align-items:center; gap:10px; margin-bottom:14px;\">
            <h2 style=\"margin:0;\">Step 3: Verify Ownership</h2>
            <span class=\"badge badge-wait\">Pending</span>
        </div>
        <p class=\"trust-note\" style=\"margin-bottom:12px;\">To make sure this UID belongs to you, we need you to temporarily place a short code in your in-game signature. This is a standard verification method used by many Genshin community tools — it does not affect your account in any way.</p>
        <p>Set this code as your <strong style=\"color:#e2e8f0;\">in-game signature</strong>:</p>
        <div class=\"code-box\">
            <span class=\"code\" id=\"verify-code\"></span>
        </div>
        <p style=\"font-size:13px; color:#64748b;\">Verifying: <span id=\"verify-uid\" style=\"color:#74b9ff;\"></span></p>
        <ol class=\"steps\">
            <li>Open <strong>Genshin Impact</strong></li>
            <li>Go to <strong>Paimon Menu</strong> and tap your avatar (top-left)</li>
            <li>Tap the pencil icon next to your name and edit <strong>Signature</strong></li>
            <li>Paste or type the code above, then <strong>save</strong></li>
            <li>Click <strong>Quit Game</strong> (optional but recommended for a quick refresh)</li>
            <li>Come back here and click <strong>Verify Now</strong></li>
        </ol>
        <p class=\"note\">You can remove the code from your signature right after verification.</p>
        <div class=\"actions\">
            <button class=\"btn btn-success\" id=\"verify-btn\" onclick=\"doCheck()\">Verify Now</button>
            <button class=\"btn btn-secondary\" onclick=\"showSection('uid-section')\">Change UID</button>
        </div>
    </div>

    <!-- Messages -->
    <div id=\"msg\" class=\"hidden\"></div>

    <noscript><p style=\"color:#f87171; margin-top:20px;\">JavaScript is required.</p></noscript>

    <script>
    const API = '';

    async function api(method, path, body) {
        const opts = { method, headers: {}, credentials: '\x69nclude' };
        if (body) {
            opts.headers['Content-Type'] = 'application/json';
            opts.body = JSON.stringify(body);
        }
        const res = await fetch(API + path, opts);
        const data = await res.json();
        if (!res.ok) throw new Error(data.error || 'Request failed');
        return data;
    }

    function showSection(id) {
        ['loading-section','login-section','linked-section','uid-section','verify-section'].forEach(s =>
            document.getElementById(s).classList.add('hidden')
        );
        document.getElementById(id).classList.remove('hidden');
    }

    function showMsg(text, type) {
        const el = document.getElementById('msg');
        el.className = 'msg msg-' + type;
        el.textContent = text;
        el.classList.remove('hidden');
        if (type === 'success') setTimeout(() => el.classList.add('hidden'), 6000);
    }

    function clearMsg() { document.getElementById('msg').classList.add('hidden'); }

    async function init() {
        try {
            const s = await api('GET', '/verify/status');
            currentName = s.display_name || '';
            if (s.linked) {
                document.getElementById('linked-discord').textContent = s.display_name;
                document.getElementById('linked-uid').textContent = s.linked;
                showSection('linked-section');
            } else if (s.pending_verification) {
                document.getElementById('verify-code').textContent = s.pending_verification.code;
                document.getElementById('verify-uid').textContent = s.pending_verification.nickname
                    ? s.pending_verification.nickname + ' (AR ' + (s.pending_verification.level || '?') + ') - ' + s.pending_verification.uid
                    : s.pending_verification.uid;
                document.getElementById('uid-discord').textContent = s.display_name;
                showSection('verify-section');
            } else {
                document.getElementById('uid-discord').textContent = s.display_name;
                showSection('uid-section');
            }
        } catch (e) {
            showSection('login-section');
        }
    }

    async function doStart() {
        clearMsg();
        const uid = document.getElementById('uid-input').value.trim();
        if (!uid) return showMsg('Please enter your UID.', 'error');
        if (!/^\\d{9,10}$/.test(uid)) return showMsg('UID must be 9 or 10 digits.', 'error');
        const btn = document.getElementById('start-btn');
        btn.disabled = true; btn.textContent = 'Looking up...';
        try {
            const res = await api('POST', '/verify/start', { uid });
            document.getElementById('verify-code').textContent = res.code;
            document.getElementById('verify-uid').textContent = res.nickname
                ? res.nickname + ' (AR ' + (res.level || '?') + ') - ' + res.uid
                : res.uid;
            showSection('verify-section');
        } catch (e) { showMsg(e.message, 'error'); }
        btn.disabled = false; btn.textContent = 'Continue';
    }

    let currentName = '';
    let retryTimer = null;
    let hasRetried = false;

    async function doCheck() {
        clearMsg();
        if (retryTimer) { clearInterval(retryTimer); retryTimer = null; }
        const btn = document.getElementById('verify-btn');
        btn.disabled = true; btn.textContent = 'Checking...';
        try {
            const res = await api('POST', '/verify/check');
            if (res.verified === false) {
                if (hasRetried) {
                    // Already retried once, show error and let user try manually
                    hasRetried = false;
                    showMsg('Code not found in your signature. Make sure you saved it in-game and try again.', 'error');
                    btn.disabled = false; btn.textContent = 'Verify Now';
                    return;
                }
                // First attempt - auto-retry after TTL
                hasRetried = true;
                let ttl = Math.max(res.ttl || 5, 3);
                let remaining = ttl;
                btn.disabled = true;
                btn.textContent = 'Fetching ' + remaining + 's...';
                showMsg('Looking up your profile, please wait...', 'error');
                retryTimer = setInterval(() => {
                    remaining--;
                    if (remaining <= 0) {
                        clearInterval(retryTimer);
                        retryTimer = null;
                        doCheck();
                    } else {
                        btn.textContent = 'Fetching ' + remaining + 's...';
                    }
                }, 1000);
                return;
            }
            hasRetried = false;
            let label = res.uid;
            if (res.nickname) label = res.nickname + ' (AR ' + (res.level || '?') + ') - ' + res.uid;
            document.getElementById('linked-uid').textContent = label;
            document.getElementById('linked-discord').textContent = currentName;
            showSection('linked-section');
            showMsg('Account linked successfully! You can now change your signature back.', 'success');
        } catch (e) {
            hasRetried = false;
            showMsg(e.message, 'error');
            btn.disabled = false; btn.textContent = 'Verify Now';
        }
    }

    async function doUnlink() {
        clearMsg();
        if (!confirm('Unlink your account? You will lose all assigned roles.')) return;
        try {
            await api('POST', '/verify/unlink');
            document.getElementById('uid-discord').textContent = currentName;
            showSection('uid-section');
            showMsg('Account unlinked.', 'success');
        } catch (e) { showMsg(e.message, 'error'); }
    }

    document.getElementById('uid-input').addEventListener('keydown', e => {
        if (e.key === 'Enter') doStart();
    });

    init();
    </script>
</body>
</html>";

/// The verification page for a service served at `base_url`.
pub open spec fn verify_page_html(base_url: Seq<char>) -> Seq<char> {
    VERIFY_PAGE_PART_0@ + base_url + VERIFY_PAGE_PART_1@ + base_url + VERIFY_PAGE_PART_2@ + base_url
        + "/verify/login"@ + VERIFY_PAGE_PART_3@
}

pub fn render_verify_page(base_url: &str) -> (r: String)
    ensures
        r@ == verify_page_html(base_url@),
{
    let mut page: String = String::from_str(VERIFY_PAGE_PART_0);
    page.append(base_url);
    page.append(VERIFY_PAGE_PART_1);
    page.append(base_url);
    page.append(VERIFY_PAGE_PART_2);
    page.append(base_url);
    page.append("/verify/login");
    page.append(VERIFY_PAGE_PART_3);
    page
}

// ----- Endpoint decisions -----

/// Whether the OAuth callback reports a refusal (or no code), in which case
/// the user is sent back to the verification page.
pub fn callback_refused(query: &CallbackQuery) -> (r: bool)
    ensures
        r == (query.error is Some || query.code is None),
{
    query.error.is_some() || query.code.is_none()
}

/// Where the user is sent after signing in (or refusing to).
pub fn verify_page_url(base_url: &str) -> (r: String)
    ensures
        r@ == base_url@ + "/verify"@,
{
    let mut s: String = String::from_str(base_url);
    s.append("/verify");
    s
}

pub const MSG_UID_TAKEN: &'static str = "This UID is already linked to another Discord account";

/// Refuses to start a verification for a user who already has a linked
/// account, or for a UID linked to someone else.
pub fn check_start_allowed(existing_uid: Option<&str>, uid_taken: bool) -> (r: Result<(), AppError>)
    ensures
        existing_uid matches Some(u) ==> r is Err && r->Err_0 is BadRequest && r->Err_0->BadRequest_0@
            == "You already have a linked account (UID: "@ + u@ + "). Unlink it first."@,
        existing_uid is None && uid_taken ==> r is Err && r->Err_0 is BadRequest
            && r->Err_0->BadRequest_0@ == MSG_UID_TAKEN@,
        existing_uid is None && !uid_taken ==> r is Ok,
{
    if let Some(uid) = existing_uid {
        return Err(
            AppError::BadRequest(
                concat3("You already have a linked account (UID: ", uid, "). Unlink it first."),
            ),
        );
    }
    if uid_taken {
        return Err(AppError::bad_request(MSG_UID_TAKEN));
    }
    Ok(())
}

/// How long a verification code stays valid.
pub const CODE_TTL_MINUTES: i64 = 15;

/// The instructions shown with a new code.
pub fn start_instructions(code: &str) -> (r: String)
    ensures
        r@ == "Set your in-game signature to \x69nclude: "@ + code@
            + "  Then click Verify. The code expires in 15 minutes."@,
{
    concat3(
        "Set your in-game signature to \x69nclude: ",
        code,
        "  Then click Verify. The code expires in 15 minutes.",
    )
}

/// The shortest time, in seconds, before a cached profile is fetched again.
pub const MIN_CACHE_TTL_SECS: i32 = 60;

/// How long to keep a freshly fetched profile: Enka's TTL, at least a
/// minute.
pub fn cache_ttl(enka_ttl: i32) -> (r: i32)
    ensures
        r == (if enka_ttl >= MIN_CACHE_TTL_SECS {
            enka_ttl
        } else {
            MIN_CACHE_TTL_SECS
        }),
{
    if enka_ttl >= MIN_CACHE_TTL_SECS {
        enka_ttl
    } else {
        MIN_CACHE_TTL_SECS
    }
}

/// The nickname and Adventure Rank shown for a profile.
pub fn player_summary(info: &PlayerInfo) -> (r: (Option<String>, Option<i64>))
    ensures
        r.0 is Some == info.field("nickname"@).as_str() is Some,
        r.0 matches Some(n) ==> n@ == info.field("nickname"@).as_str()->0,
        r.1 == info.field("level"@).as_i64(),
{
    let nickname: Option<String> = match get_str(&info.fields, "nickname") {
        Some(n) => Some(String::from_str(n)),
        None => None,
    };
    (nickname, get_i64(&info.fields, "level"))
}

pub const MSG_NO_SESSION: &'static str = "No pending verification session. Start a new one.";

pub const MSG_NO_LINKED_ACCOUNT: &'static str = "No linked account found";

pub const MSG_TOO_MANY_ATTEMPTS: &'static str = "Too many attempts. Please start a new verification.";

/// The number of checks allowed per verification session.
pub const MAX_CHECK_ATTEMPTS: i32 = 10;

/// Refuses a check once the session has used up its attempts.
pub fn check_attempts(attempts: i32) -> (r: Result<(), AppError>)
    ensures
        attempts >= MAX_CHECK_ATTEMPTS ==> r is Err && r->Err_0 is BadRequest
            && r->Err_0->BadRequest_0@ == MSG_TOO_MANY_ATTEMPTS@,
        attempts < MAX_CHECK_ATTEMPTS ==> r is Ok,
{
    if attempts >= MAX_CHECK_ATTEMPTS {
        return Err(AppError::bad_request(MSG_TOO_MANY_ATTEMPTS));
    }
    Ok(())
}

/// The result of looking for the code in a profile's signature.
#[derive(Debug)]
pub enum CheckOutcome {
    /// The signature holds the code: the account is linked.
    Verified,
    /// The signature lacks the code: the user is told when Enka's cache
    /// refreshes.
    CodeMissing { ttl: i32, signature: String, message: String },
}

/// The signature of a profile (`""` when it has none).
pub open spec fn signature_of(info: PlayerInfo) -> Seq<char> {
    match info.field("signature"@).as_str() {
        Some(s) => s,
        None => Seq::empty(),
    }
}

/// Whether a profile's signature holds a code.
pub open spec fn signature_has_code(info: PlayerInfo, code: Seq<char>) -> bool {
    contains_seq(signature_of(info), code)
}

/// Decides a verification check from the freshly fetched profile.
pub fn check_signature(info: &PlayerInfo, enka_ttl: i32, code: &str) -> (r: CheckOutcome)
    ensures
        signature_has_code(*info, code@) ==> r is Verified,
        !signature_has_code(*info, code@) ==> (r matches CheckOutcome::CodeMissing {
            ttl,
            signature,
            message,
        } && ttl == (if enka_ttl >= 0 {
            enka_ttl
        } else {
            0
        }) && signature@ == signature_of(*info) && message@
            == "Code not found in your signature. Enka cache refreshes in ~"@ + decimal(ttl as int)
            + "s."@),
{
    proof {
        reveal_strlit("");
        assert(""@ =~= Seq::<char>::empty());
    }
    let signature: &str = match get_str(&info.fields, "signature") {
        Some(s) => s,
        None => "",
    };
    if str_contains(signature, code) {
        return CheckOutcome::Verified;
    }
    let ttl: i32 = if enka_ttl >= 0 {
        enka_ttl
    } else {
        0
    };
    let mut message: String = String::from_str(
        "Code not found in your signature. Enka cache refreshes in ~",
    );
    append_decimal(&mut message, ttl as i64);
    message.append("s.");
    CheckOutcome::CodeMissing { ttl, signature: String::from_str(signature), message }
}

} // verus!
