//! Time keeping: the NTP request/response packet, the conversion of a Unix
//! time to a calendar date, and the synchronized clock (an NTP reading plus
//! the monotonic seconds elapsed since it was taken).
use vstd::prelude::*;
use crate::bindings::{local_seconds, local_time_parts, string_from_chars};
use crate::text::{decimal, push_text, write_u32_to_temp};
use vstd::arithmetic::div_mod::lemma_mod_breakdown;

verus! {

/// Seconds from 1900-01-01 (NTP epoch) to 1970-01-01 (Unix epoch).
pub const NTP_EPOCH_OFFSET: u32 = 2_208_988_800;

/// Size of an NTP packet in bytes.
pub const NTP_PACKET_SIZE: usize = 48;

/// UDP port of NTP servers.
pub const NTP_PORT: u16 = 123;

/// An NTP packet (RFC 5905 header, no extensions).
#[derive(Debug, Clone, Copy, PartialEq, Eq, Structural)]
pub struct NtpPacket {
    pub li_vn_mode: u8,
    pub stratum: u8,
    pub poll: u8,
    pub precision: i8,
    pub root_delay: u32,
    pub root_dispersion: u32,
    pub ref_id: u32,
    pub ref_timestamp: u64,
    pub orig_timestamp: u64,
    pub recv_timestamp: u64,
    pub trans_timestamp: u64,
}

pub open spec fn pow256(n: nat) -> nat
    decreases n,
{
    if n == 0 {
        1
    } else {
        pow256((n - 1) as nat) * 256
    }
}

/// Big-endian value of the `n` bytes of `b` from index `i`.
pub open spec fn be_value(b: Seq<u8>, i: int, n: nat) -> nat
    decreases n,
{
    if n == 0 {
        0
    } else {
        be_value(b, i, (n - 1) as nat) * 256 + b[i + n - 1] as nat
    }
}

/// The `n` big-endian bytes of `v` (its low `8 n` bits).
pub open spec fn be_bytes(v: nat, n: nat) -> Seq<u8>
    decreases n,
{
    if n == 0 {
        Seq::<u8>::empty()
    } else {
        be_bytes(v / 256, (n - 1) as nat).push((v % 256) as u8)
    }
}

/// The wire form of a packet: each field in network byte order.
pub open spec fn packet_bytes(p: NtpPacket) -> Seq<u8> {
    seq![p.li_vn_mode, p.stratum, p.poll, p.precision as u8] + be_bytes(p.root_delay as nat, 4)
        + be_bytes(p.root_dispersion as nat, 4) + be_bytes(p.ref_id as nat, 4) + be_bytes(
        p.ref_timestamp as nat,
        8,
    ) + be_bytes(p.orig_timestamp as nat, 8) + be_bytes(p.recv_timestamp as nat, 8) + be_bytes(
        p.trans_timestamp as nat,
        8,
    )
}

/// The packet that the first 48 bytes of `b` encode.
pub open spec fn packet_of(b: Seq<u8>) -> NtpPacket {
    NtpPacket {
        li_vn_mode: b[0],
        stratum: b[1],
        poll: b[2],
        precision: b[3] as i8,
        root_delay: be_value(b, 4, 4) as u32,
        root_dispersion: be_value(b, 8, 4) as u32,
        ref_id: be_value(b, 12, 4) as u32,
        ref_timestamp: be_value(b, 16, 8) as u64,
        orig_timestamp: be_value(b, 24, 8) as u64,
        recv_timestamp: be_value(b, 32, 8) as u64,
        trans_timestamp: be_value(b, 40, 8) as u64,
    }
}

proof fn lemma_be_value_bound(b: Seq<u8>, i: int, n: nat)
    ensures
        be_value(b, i, n) < pow256(n),
    decreases n,
{
    if n > 0 {
        lemma_be_value_bound(b, i, (n - 1) as nat);
        let p = pow256((n - 1) as nat);
        let v = be_value(b, i, (n - 1) as nat);
        let x = b[i + n - 1] as nat;
        assert(v * 256 + x < p * 256) by (nonlinear_arith)
            requires v < p, x < 256;
    }
}

fn push_be(out: &mut Vec<u8>, v: u64, n: usize)
    ensures
        final(out)@ == old(out)@ + be_bytes(v as nat, n as nat),
    decreases n,
{
    if n > 0 {
        push_be(out, v / 256, n - 1);
        out.push((v % 256) as u8);
        assert(final(out)@ =~= old(out)@ + be_bytes(v as nat, n as nat));
    } else {
        assert(final(out)@ =~= old(out)@ + be_bytes(v as nat, n as nat));
    }
}

fn read_be(b: &[u8], i: usize, n: usize) -> (r: u64)
    requires
        n <= 8,
        i + n <= b@.len(),
    ensures
        r == be_value(b@, i as int, n as nat),
    decreases n,
{
    if n == 0 {
        0
    } else {
        let hi = read_be(b, i, n - 1);
        let len = b.len();
        assert(i + (n - 1) < len);
        proof {
            lemma_be_value_bound(b@, i as int, (n - 1) as nat);
            reveal_with_fuel(pow256, 8);
            assert(pow256(7) == 0x100_0000_0000_0000);
            lemma_pow256_mono((n - 1) as nat, 7);
        }
        hi * 256 + b[i + (n - 1)] as u64
    }
}

proof fn lemma_pow256_mono(a: nat, b: nat)
    requires
        a <= b,
    ensures
        pow256(a) <= pow256(b),
    decreases b - a,
{
    if a < b {
        lemma_pow256_mono(a, (b - 1) as nat);
        assert(pow256((b - 1) as nat) >= 1) by {
            lemma_pow256_pos((b - 1) as nat);
        }
    }
}

proof fn lemma_pow256_pos(n: nat)
    ensures
        pow256(n) >= 1,
    decreases n,
{
    if n > 0 {
        lemma_pow256_pos((n - 1) as nat);
    }
}

proof fn lemma_be_bytes_len(v: nat, n: nat)
    ensures
        be_bytes(v, n).len() == n,
    decreases n,
{
    if n > 0 {
        lemma_be_bytes_len(v / 256, (n - 1) as nat);
    }
}

/// The value of `n` bytes depends on those bytes alone.
proof fn lemma_be_value_window(s: Seq<u8>, i: int, n: nat)
    requires
        0 <= i,
        i + n <= s.len(),
    ensures
        be_value(s, i, n) == be_value(s.subrange(i, i + n), 0, n),
    decreases n,
{
    if n > 0 {
        let w = s.subrange(i, i + n);
        lemma_be_value_window(s, i, (n - 1) as nat);
        lemma_be_value_window(w, 0, (n - 1) as nat);
        assert(w.subrange(0, n - 1) =~= s.subrange(i, i + n - 1));
    }
}

/// Reading back the big-endian bytes of `v` gives its low `8 n` bits.
proof fn lemma_be_round_trip(v: nat, n: nat)
    ensures
        be_value(be_bytes(v, n), 0, n) == v % pow256(n),
    decreases n,
{
    if n == 0 {
        assert(v % 1 == 0);
    } else {
        let b = be_bytes(v, n);
        let head = be_bytes(v / 256, (n - 1) as nat);
        lemma_be_bytes_len(v / 256, (n - 1) as nat);
        lemma_be_round_trip(v / 256, (n - 1) as nat);
        lemma_be_value_window(b, 0, (n - 1) as nat);
        lemma_be_value_window(head, 0, (n - 1) as nat);
        assert(b.subrange(0, n - 1) =~= head.subrange(0, n - 1));
        lemma_pow256_pos((n - 1) as nat);
        lemma_mod_breakdown(v as int, 256, pow256((n - 1) as nat) as int);
        assert(256 * pow256((n - 1) as nat) == pow256(n));
    }
}

proof fn lemma_field(s: Seq<u8>, i: int, v: nat, n: nat)
    requires
        0 <= i,
        i + n <= s.len(),
        s.subrange(i, i + n) == be_bytes(v, n),
    ensures
        be_value(s, i, n) == v % pow256(n),
{
    lemma_be_value_window(s, i, n);
    lemma_be_round_trip(v, n);
}

/// Encoding a packet and reading it back gives the same packet.
pub proof fn lemma_packet_round_trip(p: NtpPacket)
    ensures
        packet_bytes(p).len() == NTP_PACKET_SIZE,
        packet_of(packet_bytes(p)) == p,
{
    let b = packet_bytes(p);
    lemma_be_bytes_len(p.root_delay as nat, 4);
    lemma_be_bytes_len(p.root_dispersion as nat, 4);
    lemma_be_bytes_len(p.ref_id as nat, 4);
    lemma_be_bytes_len(p.ref_timestamp as nat, 8);
    lemma_be_bytes_len(p.orig_timestamp as nat, 8);
    lemma_be_bytes_len(p.recv_timestamp as nat, 8);
    lemma_be_bytes_len(p.trans_timestamp as nat, 8);
    reveal_with_fuel(pow256, 9);
    assert(pow256(4) == 0x1_0000_0000);
    assert(pow256(8) == 0x1_0000_0000_0000_0000);
    assert(b.subrange(4, 8) =~= be_bytes(p.root_delay as nat, 4));
    assert(b.subrange(8, 12) =~= be_bytes(p.root_dispersion as nat, 4));
    assert(b.subrange(12, 16) =~= be_bytes(p.ref_id as nat, 4));
    assert(b.subrange(16, 24) =~= be_bytes(p.ref_timestamp as nat, 8));
    assert(b.subrange(24, 32) =~= be_bytes(p.orig_timestamp as nat, 8));
    assert(b.subrange(32, 40) =~= be_bytes(p.recv_timestamp as nat, 8));
    assert(b.subrange(40, 48) =~= be_bytes(p.trans_timestamp as nat, 8));
    lemma_field(b, 4, p.root_delay as nat, 4);
    lemma_field(b, 8, p.root_dispersion as nat, 4);
    lemma_field(b, 12, p.ref_id as nat, 4);
    lemma_field(b, 16, p.ref_timestamp as nat, 8);
    lemma_field(b, 24, p.orig_timestamp as nat, 8);
    lemma_field(b, 32, p.recv_timestamp as nat, 8);
    lemma_field(b, 40, p.trans_timestamp as nat, 8);
    let x = p.precision;
    assert(((x as u8) as i8) == x) by (bit_vector);
    assert(packet_of(b) == p);
}

impl NtpPacket {
    /// A client request: leap indicator 0, version 3, mode 3 (client); all
    /// other fields zero.
    pub fn new_request() -> (r: NtpPacket)
        ensures
            r == (NtpPacket {
                li_vn_mode: 0x1b,
                stratum: 0,
                poll: 0,
                precision: 0,
                root_delay: 0,
                root_dispersion: 0,
                ref_id: 0,
                ref_timestamp: 0,
                orig_timestamp: 0,
                recv_timestamp: 0,
                trans_timestamp: 0,
            }),
    {
        NtpPacket {
            li_vn_mode: 0x1b,
            stratum: 0,
            poll: 0,
            precision: 0,
            root_delay: 0,
            root_dispersion: 0,
            ref_id: 0,
            ref_timestamp: 0,
            orig_timestamp: 0,
            recv_timestamp: 0,
            trans_timestamp: 0,
        }
    }

    /// The 48 bytes of the packet, multi-byte fields in network byte order.
    pub fn to_bytes(&self) -> (r: Vec<u8>)
        ensures
            r@ == packet_bytes(*self),
            r@.len() == NTP_PACKET_SIZE,
    {
        let mut out: Vec<u8> = Vec::new();
        out.push(self.li_vn_mode);
        out.push(self.stratum);
        out.push(self.poll);
        out.push(self.precision as u8);
        let ghost head = out@;
        push_be(&mut out, self.root_delay as u64, 4);
        push_be(&mut out, self.root_dispersion as u64, 4);
        push_be(&mut out, self.ref_id as u64, 4);
        push_be(&mut out, self.ref_timestamp, 8);
        push_be(&mut out, self.orig_timestamp, 8);
        push_be(&mut out, self.recv_timestamp, 8);
        push_be(&mut out, self.trans_timestamp, 8);
        proof {
            reveal_with_fuel(be_bytes, 9);
            assert(head =~= seq![self.li_vn_mode, self.stratum, self.poll, self.precision as u8]);
        }
        assert(out@ =~= packet_bytes(*self));
        out
    }

    /// Reads a packet from the first 48 bytes; `None` when fewer are given.
    pub fn from_bytes(bytes: &[u8]) -> (r: Option<NtpPacket>)
        ensures
            bytes@.len() < NTP_PACKET_SIZE ==> r is None,
            bytes@.len() >= NTP_PACKET_SIZE ==> r == Some(packet_of(bytes@)),
    {
        if bytes.len() < NTP_PACKET_SIZE {
            return None;
        }
        proof {
            lemma_be_value_bound(bytes@, 4, 4);
            lemma_be_value_bound(bytes@, 8, 4);
            lemma_be_value_bound(bytes@, 12, 4);
            reveal_with_fuel(pow256, 5);
            assert(pow256(4) == 0x1_0000_0000);
        }
        Some(
            NtpPacket {
                li_vn_mode: bytes[0],
                stratum: bytes[1],
                poll: bytes[2],
                precision: bytes[3] as i8,
                root_delay: read_be(bytes, 4, 4) as u32,
                root_dispersion: read_be(bytes, 8, 4) as u32,
                ref_id: read_be(bytes, 12, 4) as u32,
                ref_timestamp: read_be(bytes, 16, 8),
                orig_timestamp: read_be(bytes, 24, 8),
                recv_timestamp: read_be(bytes, 32, 8),
                trans_timestamp: read_be(bytes, 40, 8),
            },
        )
    }

    /// The Unix time (seconds) of the transmit timestamp; `None` when its
    /// seconds do not lie after the Unix epoch.
    pub fn get_unix_timestamp(&self) -> (r: Option<u32>)
        ensures
            ({
                let secs = self.trans_timestamp as int / 0x1_0000_0000;
                if secs > NTP_EPOCH_OFFSET {
                    r == Some((secs - NTP_EPOCH_OFFSET) as u32)
                } else {
                    r is None
                }
            }),
    {
        let secs = (self.trans_timestamp / 0x1_0000_0000) as u32;
        if secs > NTP_EPOCH_OFFSET {
            Some(secs - NTP_EPOCH_OFFSET)
        } else {
            None
        }
    }
}

pub open spec fn leap(y: int) -> bool {
    (y % 4 == 0 && y % 100 != 0) || y % 400 == 0
}

pub open spec fn year_len(y: int) -> int {
    if leap(y) {
        366
    } else {
        365
    }
}

/// Days from 1970-01-01 to the first day of year `y`.
pub open spec fn days_before_year(y: int) -> int
    decreases y - 1970,
{
    if y <= 1970 {
        0
    } else {
        days_before_year(y - 1) + year_len(y - 1)
    }
}

pub open spec fn month_len(y: int, m: int) -> int {
    if m == 2 {
        if leap(y) {
            29
        } else {
            28
        }
    } else if m == 4 || m == 6 || m == 9 || m == 11 {
        30
    } else {
        31
    }
}

/// Days from the first of January to the first day of month `m` of year `y`.
pub open spec fn days_before_month(y: int, m: int) -> int
    decreases m,
{
    if m <= 1 {
        0
    } else {
        days_before_month(y, m - 1) + month_len(y, m - 1)
    }
}

/// `(year, month, day)` is the date `days` days after 1970-01-01.
pub open spec fn is_date_of(days: int, date: (u32, u32, u32)) -> bool {
    let (y, m, d) = date;
    &&& y >= 1970
    &&& 1 <= m <= 12
    &&& 1 <= d <= month_len(y as int, m as int)
    &&& days_before_year(y as int) + days_before_month(y as int, m as int) + d - 1 == days
}

pub fn is_leap_year(year: u32) -> (r: bool)
    ensures
        r == leap(year as int),
{
    (year % 4 == 0 && year % 100 != 0) || (year % 400 == 0)
}

fn days_in_month(year: u32, month: u32) -> (r: u32)
    ensures
        r == month_len(year as int, month as int),
{
    if month == 2 {
        if is_leap_year(year) {
            29
        } else {
            28
        }
    } else if month == 4 || month == 6 || month == 9 || month == 11 {
        30
    } else {
        31
    }
}

/// The calendar date `days` days after 1970-01-01 (proleptic Gregorian).
pub fn days_to_date(days: u32) -> (r: (u32, u32, u32))
    ensures
        is_date_of(days as int, r),
{
    let mut rem: u32 = days;
    let mut year: u32 = 1970;
    loop
        invariant
            year >= 1970,
            rem <= days,
            rem + days_before_year(year as int) == days,
            (year - 1970) * 365 <= days - rem,
        ensures
            year >= 1970,
            rem + days_before_year(year as int) == days,
            rem < year_len(year as int),
        decreases rem,
    {
        let dy: u32 = if is_leap_year(year) {
            366
        } else {
            365
        };
        if rem >= dy {
            rem = rem - dy;
            year = year + 1;
        } else {
            break;
        }
    }
    let ghost after_year = rem;
    proof {
        reveal_with_fuel(days_before_month, 13);
    }
    assert(days_before_month(year as int, 12) + 31 == year_len(year as int));
    let mut month: u32 = 1;
    while month < 12
        invariant
            1 <= month <= 12,
            rem + days_before_month(year as int, month as int) == after_year,
            after_year < year_len(year as int),
            days_before_month(year as int, 12) + 31 == year_len(year as int),
            rem + days_before_year(year as int) + days_before_month(year as int, month as int) == days,
        ensures
            1 <= month <= 12,
            rem < month_len(year as int, month as int),
            rem + days_before_year(year as int) + days_before_month(year as int, month as int) == days,
        decreases 12 - month,
    {
        let ml = days_in_month(year, month);
        if rem >= ml {
            rem = rem - ml;
            month = month + 1;
        } else {
            break;
        }
    }
    (year, month, rem + 1)
}

/// `n` in decimal, left-padded with zeros to `width` characters.
pub open spec fn padded(n: nat, width: nat) -> Seq<char> {
    let d = decimal(n);
    if d.len() < width {
        Seq::new((width - d.len()) as nat, |i: int| '0') + d
    } else {
        d
    }
}

/// Appends `num` in decimal, left-padded with zeros to `width` characters.
fn write_u32_padded(s: &mut Vec<char>, num: u32, width: usize)
    ensures
        final(s)@ == old(s)@ + padded(num as nat, width as nat),
{
    let mut temp: Vec<char> = Vec::new();
    write_u32_to_temp(&mut temp, num);
    assert(temp@ =~= decimal(num as nat));
    let mut k: usize = temp.len();
    let ghost start = s@;
    while k < width
        invariant
            temp@ == decimal(num as nat),
            temp@.len() <= k <= width || (k == temp@.len() && k >= width),
            s@ == start + Seq::new((k - temp@.len()) as nat, |i: int| '0'),
        decreases width - k,
    {
        s.push('0');
        k += 1;
        assert(s@ =~= start + Seq::new((k - temp@.len()) as nat, |i: int| '0'));
    }
    let mut i: usize = 0;
    let ghost mid = s@;
    while i < temp.len()
        invariant
            i <= temp@.len(),
            s@ == mid + temp@.subrange(0, i as int),
        decreases temp@.len() - i,
    {
        s.push(temp[i]);
        i += 1;
        assert(s@ =~= mid + temp@.subrange(0, i as int));
    }
    assert(temp@.subrange(0, i as int) =~= temp@);
    proof {
        if temp@.len() >= width {
            assert(mid =~= start);
        }
    }
    assert(final(s)@ =~= old(s)@ + padded(num as nat, width as nat));
}

/// `YYYY-MM-DDTHH:MM:SSZ` for the date `date` and the second `secs` of that day.
pub open spec fn iso8601(date: (u32, u32, u32), secs: int) -> Seq<char> {
    let (y, m, d) = date;
    padded(y as nat, 4) + seq!['-'] + padded(m as nat, 2) + seq!['-'] + padded(d as nat, 2)
        + seq!['T'] + padded((secs / 3600) as nat, 2) + seq![':'] + padded(
        ((secs % 3600) / 60) as nat,
        2,
    ) + seq![':'] + padded((secs % 60) as nat, 2) + seq!['Z']
}

/// The clock: an NTP reading (Unix seconds) and the monotonic time (seconds
/// since boot) at which it was taken. Unsynchronized until the first reading.
pub struct TimeSync {
    ntp_base: u32,
    system_base: u32,
    synced: bool,
}

impl TimeSync {
    pub closed spec fn spec_synced(&self) -> bool {
        self.synced
    }

    pub closed spec fn spec_ntp_base(&self) -> u32 {
        self.ntp_base
    }

    pub closed spec fn spec_system_base(&self) -> u32 {
        self.system_base
    }

    /// Unix time at monotonic time `now` (wrapping, as 32-bit counters do);
    /// 0 ("unknown") before the first synchronization.
    pub open spec fn unix_at(&self, now: u32) -> u32 {
        if self.spec_synced() {
            self.spec_ntp_base().wrapping_add(now.wrapping_sub(self.spec_system_base()))
        } else {
            0
        }
    }

    pub fn new() -> (r: TimeSync)
        ensures
            !r.spec_synced(),
    {
        TimeSync { ntp_base: 0, system_base: 0, synced: false }
    }

    /// Records a successful synchronization: Unix time `unix` was read at
    /// monotonic time `now`.
    pub fn record_sync(&mut self, unix: u32, now: u32)
        ensures
            final(self).spec_synced(),
            final(self).spec_ntp_base() == unix,
            final(self).spec_system_base() == now,
    {
        self.ntp_base = unix;
        self.system_base = now;
        self.synced = true;
    }

    pub fn is_time_synced(&self) -> (r: bool)
        ensures
            r == self.spec_synced(),
    {
        self.synced
    }

    pub fn get_current_unix_time(&self, now: u32) -> (r: u32)
        ensures
            r == self.unix_at(now),
    {
        if !self.synced {
            return 0;
        }
        let elapsed = now.wrapping_sub(self.system_base);
        self.ntp_base.wrapping_add(elapsed)
    }

    /// Whole minutes since the last synchronization; `u32::MAX` before the first.
    pub fn minutes_since_last_sync(&self, now: u32) -> (r: u32)
        ensures
            !self.spec_synced() ==> r == u32::MAX,
            self.spec_synced() ==> r == now.wrapping_sub(self.spec_system_base()) / 60,
    {
        if !self.synced {
            return u32::MAX;
        }
        now.wrapping_sub(self.system_base) / 60
    }

    /// The current time as `YYYY-MM-DDTHH:MM:SSZ`; the Unix epoch while the
    /// time is unknown.
    pub fn get_iso8601_time(&self, now: u32) -> (r: String)
        ensures
            exists|date: (u32, u32, u32)|
                #[trigger] is_date_of((self.unix_at(now) / 86400) as int, date) && r@ == iso8601(
                    date,
                    (self.unix_at(now) % 86400) as int,
                ),
    {
        let ts = self.get_current_unix_time(now);
        let days = ts / 86400;
        let secs = ts % 86400;
        let date = days_to_date(days);
        let (year, month, day) = date;
        let mut out: Vec<char> = Vec::new();
        write_u32_padded(&mut out, year, 4);
        out.push('-');
        write_u32_padded(&mut out, month, 2);
        out.push('-');
        write_u32_padded(&mut out, day, 2);
        out.push('T');
        write_u32_padded(&mut out, secs / 3600, 2);
        out.push(':');
        write_u32_padded(&mut out, (secs % 3600) / 60, 2);
        out.push(':');
        write_u32_padded(&mut out, secs % 60, 2);
        out.push('Z');
        assert(out@ =~= iso8601(date, secs as int));
        string_from_chars(&out)
    }
}

/// Why an NTP response gave no time.
#[derive(Debug, Clone, Copy, PartialEq, Eq, Structural)]
pub enum NtpError {
    /// Fewer than 48 bytes came back.
    TooShort,
    /// The transmit timestamp does not lie after the Unix epoch.
    InvalidTimestamp,
}

/// `HH:MM:SS` for the second `secs` of a day.
pub open spec fn clock_text(h: nat, m: nat, s: nat) -> Seq<char> {
    padded(h, 2) + seq![':'] + padded(m, 2) + seq![':'] + padded(s, 2)
}

/// Local `HH:MM:SS` of Unix time `ts` at an offset of `offset_hours`;
/// `--:--:--` for the unknown time 0.
pub open spec fn local_clock_text(ts: u32, offset_hours: i8) -> Seq<char> {
    if ts == 0 {
        "--:--:--"@
    } else {
        let local = local_seconds(ts, (offset_hours as i32 * 3600) as i32);
        clock_text(((local % 86400) / 3600) as nat, ((local % 3600) / 60) as nat, (local % 60) as nat)
    }
}

/// `text` is the local `MM/DD` of Unix time `ts` at an offset of
/// `offset_hours` (`--/--` for the unknown time 0).
pub open spec fn is_local_date_text(ts: u32, offset_hours: i8, text: Seq<char>) -> bool {
    if ts == 0 {
        text == "--/--"@
    } else {
        let local = local_seconds(ts, (offset_hours as i32 * 3600) as i32);
        local >= 0 ==> exists|date: (u32, u32, u32)|
            #[trigger] is_date_of(local / 86400, date) && text == padded(date.1 as nat, 2) + seq!['/']
                + padded(date.2 as nat, 2)
    }
}

impl TimeSync {
    /// Reads a server response of which `received` bytes arrived in `response`,
    /// and on success records the synchronization at monotonic time `now`.
    pub fn sync_from_response(&mut self, response: &[u8], received: usize, now: u32) -> (r: Result<u32, NtpError>)
        ensures
            received < NTP_PACKET_SIZE || response@.len() < NTP_PACKET_SIZE ==> r == Err::<u32, NtpError>(NtpError::TooShort) && *final(self) == *old(self),
            received >= NTP_PACKET_SIZE && response@.len() >= NTP_PACKET_SIZE ==> ({
                let secs = packet_of(response@).trans_timestamp as int / 0x1_0000_0000;
                if secs > NTP_EPOCH_OFFSET {
                    &&& r == Ok::<u32, NtpError>((secs - NTP_EPOCH_OFFSET) as u32)
                    &&& final(self).spec_synced()
                    &&& final(self).spec_ntp_base() == (secs - NTP_EPOCH_OFFSET) as u32
                    &&& final(self).spec_system_base() == now
                } else {
                    r == Err::<u32, NtpError>(NtpError::InvalidTimestamp) && *final(self) == *old(self)
                }
            }),
    {
        if received < NTP_PACKET_SIZE {
            return Err(NtpError::TooShort);
        }
        match NtpPacket::from_bytes(response) {
            Some(packet) => match packet.get_unix_timestamp() {
                Some(unix) => {
                    self.record_sync(unix, now);
                    Ok(unix)
                },
                None => Err(NtpError::InvalidTimestamp),
            },
            None => Err(NtpError::TooShort),
        }
    }

    /// Local time `HH:MM:SS` at an offset of `timezone_offset_hours` from UTC
    /// (UTC when the offset is a day or more); `--:--:--` while unsynchronized.
    pub fn get_local_time_formatted(&self, now: u32, timezone_offset_hours: i8) -> (r: String)
        ensures
            r@ == local_clock_text(self.unix_at(now), timezone_offset_hours),
    {
        let ts = self.get_current_unix_time(now);
        if ts == 0 {
            return "--:--:--".to_owned();
        }
        let parts = local_time_parts(ts, timezone_offset_hours as i32 * 3600);
        let mut out: Vec<char> = Vec::new();
        write_u32_padded(&mut out, parts.3, 2);
        out.push(':');
        write_u32_padded(&mut out, parts.4, 2);
        out.push(':');
        write_u32_padded(&mut out, parts.5, 2);
        assert(out@ =~= clock_text(parts.3 as nat, parts.4 as nat, parts.5 as nat));
        string_from_chars(&out)
    }

    /// Local date `MM/DD` at an offset of `timezone_offset_hours` from UTC
    /// (UTC when the offset is a day or more); `--/--` while unsynchronized.
    pub fn get_local_date_formatted(&self, now: u32, timezone_offset_hours: i8) -> (r: String)
        ensures
            is_local_date_text(self.unix_at(now), timezone_offset_hours, r@),
    {
        let ts = self.get_current_unix_time(now);
        if ts == 0 {
            return "--/--".to_owned();
        }
        let parts = local_time_parts(ts, timezone_offset_hours as i32 * 3600);
        let mut out: Vec<char> = Vec::new();
        write_u32_padded(&mut out, parts.1, 2);
        out.push('/');
        write_u32_padded(&mut out, parts.2, 2);
        let ghost date = (parts.0 as u32, parts.1, parts.2);
        assert(out@ =~= padded(date.1 as nat, 2) + seq!['/'] + padded(date.2 as nat, 2));
        string_from_chars(&out)
    }
}

impl TimeSync {
    /// A line on the clock for diagnostics.
    pub fn get_timing_info(&self, now: u32) -> (r: String)
        ensures
            !self.spec_synced() ==> r@ == "Time not synced yet"@,
            self.spec_synced() ==> r@ == "NTP : Synced: "@ + decimal(
                now.wrapping_sub(self.spec_system_base()) as nat,
            ) + "s ago, Unix: "@ + decimal(self.unix_at(now) as nat) + ", Boot: "@ + decimal(
                now as nat,
            ) + "s"@,
    {
        if !self.synced {
            return "Time not synced yet".to_owned();
        }
        let elapsed = now.wrapping_sub(self.system_base);
        let unix = self.get_current_unix_time(now);
        let mut out: Vec<char> = Vec::new();
        push_text(&mut out, "NTP : Synced: ");
        write_u32_to_temp(&mut out, elapsed);
        push_text(&mut out, "s ago, Unix: ");
        write_u32_to_temp(&mut out, unix);
        push_text(&mut out, ", Boot: ");
        write_u32_to_temp(&mut out, now);
        push_text(&mut out, "s");
        string_from_chars(&out)
    }
}

} // verus!
