use vstd::prelude::*;

use crate::packet::ip_text;
use crate::packet::opt_ip_bytes;
use crate::packet::IpAddress;
use crate::packet::PacketInfo;
use crate::packet::PacketView;
use crate::text::decimal_string;
use crate::text::mac_string;
use crate::text::mac_text;
use crate::text::radix_text;

verus! {

/// Addresses whose frames are not forwarded: `from` lists sources, `into` destinations.
/// An entry is a MAC address (`aa:bb:cc:dd:ee:ff`), a bare IP address, or `ip:port`.
#[derive(Clone, Debug)]
pub struct Blacklist {
    pub from: Vec<String>,
    pub into: Vec<String>,
}

/// Whether `t` is one of the strings of `list`, by exact equality.
pub open spec fn listed(list: Seq<String>, t: Seq<char>) -> bool {
    exists|i: int| 0 <= i < list.len() && (#[trigger] list[i])@ == t
}

/// The `ip:port` form of an address and port.
pub open spec fn ip_port_text(ip: Seq<u8>, port: u16) -> Seq<char> {
    ip_text(ip) + seq![':'] + radix_text(port as nat, 10)
}

/// Whether one side of a frame (its MAC, its IP, its `ip:port`) is listed.
pub open spec fn side_listed(
    list: Seq<String>,
    mac: Seq<u8>,
    ip: Option<Seq<u8>>,
    port: Option<u16>,
) -> bool {
    listed(list, mac_text(mac)) || match ip {
        Some(a) => listed(list, ip_text(a)) || match port {
            Some(p) => listed(list, ip_port_text(a, p)),
            None => false,
        },
        None => false,
    }
}

/// Whether the rules turn the frame away: its source is in `from` or its destination in
/// `into`, by MAC, by IP, or by `ip:port`.
pub open spec fn rejects(from: Seq<String>, into: Seq<String>, p: PacketView) -> bool {
    side_listed(from, p.src_mac, p.src_ip, p.src_port) || side_listed(
        into,
        p.dst_mac,
        p.dst_ip,
        p.dst_port,
    )
}

/// Whether a frame is forwarded: always without rules, else where the rules do not
/// reject it.
pub open spec fn accepted(rules: Option<Blacklist>, p: PacketView) -> bool {
    match rules {
        Some(b) => !rejects(b.from@, b.into@, p),
        None => true,
    }
}

/// Looks `t` up in `list` by exact string equality.
fn contains(list: &Vec<String>, t: &String) -> (r: bool)
    ensures
        r == listed(list@, t@),
{
    let mut i: usize = 0;
    while i < list.len()
        invariant
            i <= list@.len(),
            forall|k: int| 0 <= k < i ==> (#[trigger] list@[k])@ != t@,
        decreases list.len() - i,
    {
        if list[i] == *t {
            return true;
        }
        i += 1;
    }
    false
}

/// Looks one side of a frame up in `list`.
fn side_matches(list: &Vec<String>, mac: &Vec<u8>, ip: &Option<IpAddress>, port: Option<u16>) -> (r:
    bool)
    requires
        ip matches Some(a) ==> a.wf(),
    ensures
        r == side_listed(list@, mac@, opt_ip_bytes(*ip), port),
{
    if contains(list, &mac_string(mac.as_slice())) {
        return true;
    }
    if let Some(a) = ip {
        let text = a.to_text();
        if contains(list, &text) {
            return true;
        }
        if let Some(p) = port {
            let mut joined = text;
            proof {
                reveal_strlit(":");
            }
            joined.append(":");
            let digits = decimal_string(p as u32);
            joined.append(digits.as_str());
            assert(joined@ =~= ip_port_text(a.bytes(), p));
            return contains(list, &joined);
        }
    }
    false
}

impl Blacklist {
    /// Whether the frame is turned away; the checks go source MAC, destination MAC,
    /// source IP, source `ip:port`, destination IP, destination `ip:port`.
    pub fn rejects(&self, info: &PacketInfo) -> (r: bool)
        requires
            info.wf(),
        ensures
            r == rejects(self.from@, self.into@, info@),
    {
        side_matches(&self.from, &info.src_mac, &info.src_ip, info.src_port)
            || side_matches(&self.into, &info.dst_mac, &info.dst_ip, info.dst_port)
    }
}

/// Whether a decoded frame is forwarded under the optional rules.
pub fn accepts(rules: &Option<Blacklist>, info: &PacketInfo) -> (r: bool)
    requires
        info.wf(),
    ensures
        r == accepted(*rules, info@),
{
    match rules {
        Some(b) => !b.rejects(info),
        None => true,
    }
}

/// The verdict depends on the decoded frame and the rules alone: the same frame under
/// the same rules gets the same verdict.
pub proof fn lemma_verdict_determined(rules: Option<Blacklist>, p: PacketInfo, q: PacketInfo)
    requires
        p@ == q@,
    ensures
        accepted(rules, p@) == accepted(rules, q@),
{
}

} // verus!
