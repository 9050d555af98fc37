//! Discovery-side logic: the advertised service record and the reaction to
//! peer-resolution events, which turns one event into outbound messages.

use crate::config::Config;
use crate::message::{Message, MessageError, PeerAddr, MSG_CAPACITY};
use vstd::prelude::*;
use vstd::string::{StrSliceExecFns, StringExecFns};
use vstd::utf8::encode_utf8;

verus! {

/// The advertised identity: fully-qualified service name, instance name,
/// host name, advertised port, and key/value properties. Built once at
/// discovery startup and immutable thereafter.
pub struct ServiceRecord {
    pub fullname: String,
    pub instance_name: String,
    pub hostname: String,
    pub port: u16,
    pub properties: Vec<(String, String)>,
}

/// A resolved peer: its full service name, the port it listens on, and the
/// IPv4 addresses it was resolved to.
pub struct ResolvedPeer {
    pub fullname: String,
    pub port: u16,
    pub addrs: Vec<[u8; 4]>,
}

/// One event from the discovery collaborator. Only a resolution carries
/// data; every other kind is deliberately ignored.
pub enum PeerEvent {
    Resolved(ResolvedPeer),
    Other,
}

/// Appends the local domain to a service name, giving `<service>.local.`.
pub fn service_domain(service_name: &str) -> (r: String)
    ensures
        r@ == service_name@ + ".local."@,
{
    let mut s = String::from_str(service_name);
    s.append(".local.");
    s
}

impl ServiceRecord {
    /// Builds the record this process advertises, from the configuration,
    /// the machine's host name, and the port the transport socket bound.
    pub fn new(config: &Config, hostname: String, port: u16) -> (r: ServiceRecord)
        ensures
            r.fullname@ == config.service_name@ + ".local."@,
            r.instance_name@ == config.instance_name@,
            r.hostname@ == hostname@,
            r.port == port,
            r.properties@ == config.properties@,
    {
        ServiceRecord {
            fullname: service_domain(config.service_name.as_str()),
            instance_name: config.instance_name.clone(),
            hostname,
            port,
            properties: clone_properties(&config.properties),
        }
    }
}

/// Clones a property list pair by pair.
fn clone_properties(props: &Vec<(String, String)>) -> (r: Vec<(String, String)>)
    ensures
        r@ == props@,
{
    let mut out: Vec<(String, String)> = Vec::new();
    let mut i: usize = 0;
    while i < props.len()
        invariant
            i <= props@.len(),
            out@ == props@.subrange(0, i as int),
        decreases props@.len() - i,
    {
        let k = props[i].0.clone();
        let v = props[i].1.clone();
        out.push((k, v));
        proof {
            assert(out@ =~= props@.subrange(0, i as int + 1));
        }
        i += 1;
    }
    proof {
        assert(out@ =~= props@);
    }
    out
}

/// The self-announcing text one peer sends another on resolution.
pub open spec fn announce_text(instance: Seq<char>, peer_fullname: Seq<char>) -> Seq<char> {
    "MESSAGE "@ + instance + " Resolved "@ + peer_fullname + " END"@
}

/// Renders the announcement for a resolved peer.
pub fn announcement(instance_name: &str, peer_fullname: &str) -> (r: String)
    ensures
        r@ == announce_text(instance_name@, peer_fullname@),
{
    let mut s = String::from_str("MESSAGE ");
    s.append(instance_name);
    s.append(" Resolved ");
    s.append(peer_fullname);
    s.append(" END");
    s
}

/// Holds when `m` announces this instance to a resolved peer at `ip:port`.
pub open spec fn is_announcement(m: Message, text: Seq<char>, ip: [u8; 4], port: u16) -> bool {
    &&& m.spec_dst() == (PeerAddr { ip, port })
    &&& m.spec_payload() == encode_utf8(text)
}

/// Turns one discovery event into the outbound messages it calls for: one
/// announcement per resolved IPv4 address, each addressed to that address
/// and the event's port; every other event kind yields none. Fails only
/// when an announcement would not fit in one datagram.
#[verifier::loop_isolation(false)]
pub fn handle_event(instance_name: &str, event: &PeerEvent) -> (r: Result<
    Vec<Message>,
    MessageError,
>)
    ensures
        (*event) matches PeerEvent::Other ==> r matches Ok(msgs) && msgs@.len() == 0,
        (*event) matches PeerEvent::Resolved(p) ==> {
            let text = announce_text(instance_name@, p.fullname@);
            &&& (r is Ok <==> (p.addrs@.len() == 0 || encode_utf8(text).len() <= MSG_CAPACITY))
            &&& (r matches Ok(msgs) ==> msgs@.len() == p.addrs@.len() && (forall|i: int|
                #![trigger msgs@[i]]
                0 <= i < msgs@.len() ==> is_announcement(msgs@[i], text, p.addrs@[i], p.port)))
            &&& (r matches Err(e) ==> e == MessageError::PayloadTooLong)
        },
{
    match event {
        PeerEvent::Other => Ok(Vec::new()),
        PeerEvent::Resolved(p) => {
            let mut msgs: Vec<Message> = Vec::new();
            if p.addrs.len() == 0 {
                return Ok(msgs);
            }
            let text = announcement(instance_name, p.fullname.as_str());
            let mut k: usize = 0;
            while k < p.addrs.len()
                invariant
                    k <= p.addrs@.len(),
                    text@ == announce_text(instance_name@, p.fullname@),
                    k > 0 ==> encode_utf8(text@).len() <= MSG_CAPACITY,
                    msgs@.len() == k,
                    forall|i: int|
                        #![trigger msgs@[i]]
                        0 <= i < k ==> is_announcement(msgs@[i], text@, p.addrs@[i], p.port),
                decreases p.addrs@.len() - k,
            {
                let ip = p.addrs[k];
                match Message::from_text(PeerAddr { ip, port: p.port }, text.as_str()) {
                    Ok(m) => msgs.push(m),
                    Err(e) => {
                        return Err(e);
                    },
                }
                k += 1;
            }
            Ok(msgs)
        },
    }
}

} // verus!
