//! Data and helpers of the management front end: pages, request bodies,
//! categories, and how API urls are formed.

use vstd::prelude::*;
use vstd::string::*;
use vstd::utf8::encode_utf8;
use crate::model::{DownloadConfig, RecordingSettings, UploadAccount, UploadTemplate};
use crate::text::{
    chars_of, decimal, decimal_string, lemma_strip_back, lemma_strip_front, owned, same_text,
    strip_back, strip_front,
};

verus! {

/// The pages of the front end.
#[derive(Debug, Clone, Copy, PartialEq, Eq)]
pub enum Tab {
    Downloads,
    Accounts,
    Uploads,
    Settings,
}

/// Everything the front end shows.
#[derive(Debug, Clone, PartialEq, Default)]
pub struct AppData {
    pub downloads: Vec<DownloadConfig>,
    pub uploads: Vec<UploadTemplate>,
    pub accounts: Vec<UploadAccount>,
    pub recording_settings: RecordingSettings,
}

/// Answer to the start of a QR-code login.
#[derive(Debug, Clone, PartialEq)]
pub struct QrStartResponse {
    pub session_id: String,
    pub qr_url: String,
}

/// Asks whether a QR-code login finished.
#[derive(Debug, Clone, PartialEq)]
pub struct QrConfirmRequest {
    pub session_id: String,
}

/// Gives a saved account a display name.
#[derive(Debug, Clone, PartialEq)]
pub struct AccountRenameRequest {
    pub account_file: String,
    pub display_name: String,
}

/// Removes a saved account.
#[derive(Debug, Clone, PartialEq)]
pub struct AccountDeleteRequest {
    pub account_file: String,
}

/// A saved credential file.
#[derive(Debug, Clone, PartialEq)]
pub struct CookieFile {
    pub cookie_info: CookieInfo,
}

/// The cookies of a credential file.
#[derive(Debug, Clone, PartialEq)]
pub struct CookieInfo {
    pub cookies: Vec<CookieKV>,
}

/// One cookie.
#[derive(Debug, Clone, PartialEq)]
pub struct CookieKV {
    pub name: String,
    pub value: String,
}

/// The platform's answer about the logged-in account.
#[derive(Debug, Clone, PartialEq)]
pub struct NavResponse {
    pub code: i32,
    pub data: Option<NavData>,
}

/// The logged-in account.
#[derive(Debug, Clone, PartialEq)]
pub struct NavData {
    pub uname: String,
    pub mid: u64,
}

/// The categories offered for publication, by id.
pub open spec fn tid_table() -> Seq<(u16, Seq<char>)> {
    seq![
        (171u16, "电子竞技"@),
        (17u16, "单机游戏"@),
        (27u16, "综合动画"@),
        (24u16, "音乐"@),
        (65u16, "生活"@),
        (95u16, "科技"@),
        (182u16, "影视"@),
    ]
}

/// The categories offered for publication.
pub fn tid_options() -> (r: Vec<(u16, &'static str)>)
    ensures
        r@.len() == tid_table().len(),
        forall|i: int| 0 <= i < r@.len() ==> r@[i].0 == tid_table()[i].0 && r@[i].1@ == tid_table()[i].1,
{
    let mut v: Vec<(u16, &'static str)> = Vec::new();
    v.push((171, "电子竞技"));
    v.push((17, "单机游戏"));
    v.push((27, "综合动画"));
    v.push((24, "音乐"));
    v.push((65, "生活"));
    v.push((95, "科技"));
    v.push((182, "影视"));
    v
}

/// The name of category `tid`, or its number where it is not offered.
pub open spec fn tid_label(tid: u16) -> Seq<char> {
    if exists|i: int| 0 <= i < tid_table().len() && tid_table()[i].0 == tid {
        let i = choose|i: int| 0 <= i < tid_table().len() && tid_table()[i].0 == tid;
        tid_table()[i].1
    } else {
        decimal(tid as nat)
    }
}

/// The name of category `tid`.
pub fn tid_name(tid: u16) -> (r: String)
    ensures
        r@ == tid_label(tid),
{
    let opts = tid_options();
    let mut i: usize = 0;
    while i < opts.len()
        invariant
            opts@.len() == tid_table().len(),
            forall|j: int| 0 <= j < opts@.len() ==> opts@[j].0 == tid_table()[j].0 && opts@[j].1@
                == tid_table()[j].1,
            i <= opts@.len(),
            forall|j: int| 0 <= j < i ==> tid_table()[j].0 != tid,
        decreases opts@.len() - i,
    {
        if opts[i].0 == tid {
            proof {
                let k = choose|k: int| 0 <= k < tid_table().len() && tid_table()[k].0 == tid;
                assert(k == i) by {
                    if k < i {
                    } else if k > i {
                        assert(tid_table()[i as int].0 == tid);
                        assert(tid_table()[k].0 != tid_table()[i as int].0);
                    }
                }
            }
            return owned(opts[i].1);
        }
        i += 1;
    }
    decimal_string(tid as u64)
}

/// `base` without trailing `/`, then `/`, then `path` without leading `/`.
pub open spec fn url_joined(base: Seq<char>, path: Seq<char>) -> Seq<char> {
    strip_back(base, '/') + "/"@ + strip_front(path, '/')
}

/// The API url of `path` under `base`.
pub fn join_url(base: &str, path: &str) -> (r: String)
    ensures
        r@ == url_joined(base@, path@),
{
    let b = chars_of(base);
    let mut e: usize = b.len();
    while e > 0 && b[e - 1] == '/'
        invariant
            b@ == base@,
            e <= b@.len(),
            forall|j: int| e <= j < b@.len() ==> b@[j] == '/',
        decreases e,
    {
        e -= 1;
    }
    let p = chars_of(path);
    let mut s: usize = 0;
    while s < p.len() && p[s] == '/'
        invariant
            p@ == path@,
            s <= p@.len(),
            forall|j: int| 0 <= j < s ==> p@[j] == '/',
        decreases p@.len() - s,
    {
        s += 1;
    }
    proof {
        lemma_strip_back(base@, '/', e as int);
        lemma_strip_front(path@, '/', s as int);
    }
    let head = owned(base.substring_char(0, e));
    head.concat("/").concat(path.substring_char(s, p.len()))
}

/// Adds `base` to `bases` unless it is there already.
pub fn push_unique(bases: &mut Vec<String>, base: String)
    ensures
        (exists|i: int| 0 <= i < old(bases)@.len() && old(bases)@[i]@ == base@) ==> final(bases)@
            == old(bases)@,
        !(exists|i: int| 0 <= i < old(bases)@.len() && old(bases)@[i]@ == base@) ==> final(bases)@
            == old(bases)@.push(base),
{
    let mut i: usize = 0;
    while i < bases.len()
        invariant
            i <= bases@.len(),
            bases@ == old(bases)@,
            forall|j: int| 0 <= j < i ==> bases@[j]@ != base@,
        decreases bases@.len() - i,
    {
        if same_text(bases[i].as_str(), base.as_str()) {
            return;
        }
        i += 1;
    }
    bases.push(base);
}

/// Bytes that stand for themselves in a url: ASCII letters, digits and `-_.~`.
pub open spec fn unreserved(b: u8) -> bool {
    (48 <= b <= 57) || (65 <= b <= 90) || (97 <= b <= 122) || b == 45 || b == 46 || b == 95 || b
        == 126
}

/// The upper-case hex digit for `d < 16`.
pub open spec fn hex_digit(d: u8) -> char {
    if d < 10 {
        ((48 + d) as u8) as char
    } else {
        ((55 + d) as u8) as char
    }
}

/// `bs` percent-encoded: unreserved bytes as they are, every other byte as
/// `%` and two upper-case hex digits.
pub open spec fn percent_bytes(bs: Seq<u8>) -> Seq<char>
    decreases bs.len(),
{
    if bs.len() == 0 {
        Seq::empty()
    } else {
        let b = bs.last();
        percent_bytes(bs.drop_last()) + if unreserved(b) {
            seq![b as char]
        } else {
            seq!['%', hex_digit(b / 16), hex_digit(b % 16)]
        }
    }
}

/// `s` percent-encoded byte by byte in its UTF-8 form.
pub open spec fn percent_encoded(s: Seq<char>) -> Seq<char> {
    percent_bytes(encode_utf8(s))
}

/// Relies on `urlencoding::encode`: every byte of the UTF-8 form of `s` but
/// ASCII letters, digits and `-_.~` becomes `%` and two upper-case hex digits.
#[verifier::external_body]
fn url_encode(s: &str) -> (r: String)
    ensures
        r@ == percent_bytes(encode_utf8(s@)),
{
    urlencoding::encode(s).into_owned()
}

/// The address of a QR-code image for `raw`.
pub fn qr_image_url(raw: &str) -> (r: String)
    ensures
        r@ == "https://api.qrserver.com/v1/create-qr-code/?size=260x260&data="@ + percent_encoded(
            raw@,
        ),
{
    let enc = url_encode(raw);
    owned("https://api.qrserver.com/v1/create-qr-code/?size=260x260&data=").concat(enc.as_str())
}

} // verus!
