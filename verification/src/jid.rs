//! The protocol's addressing identifier: a user name, an optional
//! agent/device pair, a server, and an optional integrator, together with
//! its human-readable text form `user[.agent][:device]@server`.

use vstd::prelude::*;
use vstd::string::StringExecFns;
use crate::encoding::{
    all_dec_digits, dec_digits, dec_val, find_ch, find_char, lemma_dec_digits_val,
    lemma_digits_no_delims, lemma_find_ch_concat, lemma_find_ch_some_at, parse_dec_u16,
    parse_dec_u64, parse_dec_u8, str_eq, u64_to_dec_string,
};

verus! {

pub const DEFAULT_USER_SERVER: &'static str = "s.whatsapp.net";

pub const GROUP_SERVER: &'static str = "g.us";

pub const LEGACY_USER_SERVER: &'static str = "c.us";

pub const BROADCAST_SERVER: &'static str = "broadcast";

pub const HIDDEN_USER_SERVER: &'static str = "lid";

pub const MESSENGER_SERVER: &'static str = "msgr";

pub const INTEROP_SERVER: &'static str = "interop";

pub const NEWSLETTER_SERVER: &'static str = "newsletter";

pub const HOSTED_SERVER: &'static str = "hosted";

/// The mathematical value of a [`JID`]: the same fields over sequences.
pub struct JidV {
    pub user: Seq<char>,
    pub raw_agent: u8,
    pub device: u16,
    pub server: Seq<char>,
    pub integrator: u16,
}

#[derive(Debug)]
pub struct JID {
    pub user: String,
    pub raw_agent: u8,
    pub device: u16,
    pub server: String,
    pub integrator: u16,
}

impl View for JID {
    type V = JidV;

    open spec fn view(&self) -> JidV {
        JidV {
            user: self.user@,
            raw_agent: self.raw_agent,
            device: self.device,
            server: self.server@,
            integrator: self.integrator,
        }
    }
}

impl Clone for JID {
    /// A copy with the same mathematical value.
    fn clone(&self) -> (r: JID)
        ensures
            r@ == self@,
    {
        JID {
            user: self.user.clone(),
            raw_agent: self.raw_agent,
            device: self.device,
            server: self.server.clone(),
            integrator: self.integrator,
        }
    }
}

impl PartialEq for JID {
    fn eq(&self, other: &JID) -> (r: bool) {
        self.raw_agent == other.raw_agent && self.device == other.device && self.integrator
            == other.integrator && str_eq(self.user.as_str(), other.user.as_str()) && str_eq(
            self.server.as_str(),
            other.server.as_str(),
        )
    }
}

impl vstd::std_specs::cmp::PartialEqSpecImpl for JID {
    open spec fn obeys_eq_spec() -> bool {
        true
    }

    open spec fn eq_spec(&self, other: &JID) -> bool {
        self@ == other@
    }
}

impl Eq for JID {}

impl JID {
    /// Creates a plain JID of a user on a server, with no agent or device.
    pub fn new(user: String, server: String) -> (r: JID)
        ensures
            r@ == (JidV { user: user@, raw_agent: 0, device: 0, server: server@, integrator: 0 }),
    {
        JID { user, server, raw_agent: 0, device: 0, integrator: 0 }
    }

    /// Creates an agent/device ("AD") JID. Agent 0 addresses the default
    /// user server, agent 1 the hidden-user server (dropping the agent
    /// field), and any other agent the hosted server.
    pub fn new_ad_jid(user: String, agent: u8, device: u8) -> (r: JID)
        ensures
            r@.user == user@,
            r@.device == device as u16,
            r@.integrator == 0,
            agent == 0 ==> r@.server == DEFAULT_USER_SERVER@ && r@.raw_agent == 0,
            agent == 1 ==> r@.server == HIDDEN_USER_SERVER@ && r@.raw_agent == 0,
            agent >= 2 ==> r@.server == HOSTED_SERVER@ && r@.raw_agent == agent,
    {
        let (server, raw_agent): (String, u8) = match agent {
            0 => (DEFAULT_USER_SERVER.to_owned(), agent),
            1 => (HIDDEN_USER_SERVER.to_owned(), 0),
            _ => (HOSTED_SERVER.to_owned(), agent),
        };
        JID { user, raw_agent, server, device: device as u16, integrator: 0 }
    }

    /// The effective agent: the default user server is agent 0 and the
    /// hidden-user server agent 1, whatever the raw field says.
    pub fn actual_agent(&self) -> (r: u8)
        ensures
            self@.server == DEFAULT_USER_SERVER@ ==> r == 0,
            self@.server != DEFAULT_USER_SERVER@ && self@.server == HIDDEN_USER_SERVER@ ==> r == 1,
            self@.server != DEFAULT_USER_SERVER@ && self@.server != HIDDEN_USER_SERVER@ ==> r
                == self@.raw_agent,
    {
        if str_eq(self.server.as_str(), DEFAULT_USER_SERVER) {
            0
        } else if str_eq(self.server.as_str(), HIDDEN_USER_SERVER) {
            1
        } else {
            self.raw_agent
        }
    }

    /// The user read as an unsigned decimal number. Only meaningful for
    /// ordinary users, whose names are numeric; groups and broadcast
    /// lists are excluded by the precondition.
    pub fn user_int(&self) -> (r: u64)
        requires
            self@.user.len() > 0,
            all_dec_digits(self@.user),
            dec_val(self@.user) <= u64::MAX,
        ensures
            r == dec_val(self@.user),
    {
        match parse_dec_u64(self.user.as_str()) {
            Some(v) => v,
            None => unreached(),
        }
    }

    /// The same identity without the agent and device fields.
    pub fn to_non_ad(self) -> (r: JID)
        ensures
            r@ == (JidV {
                user: self@.user,
                raw_agent: 0,
                device: 0,
                server: self@.server,
                integrator: self@.integrator,
            }),
    {
        JID {
            user: self.user,
            server: self.server,
            integrator: self.integrator,
            raw_agent: 0,
            device: 0,
        }
    }

    /// True when the JID has no server, which every valid JID needs.
    pub fn is_empty(&self) -> (r: bool)
        ensures
            r <==> self@.server.len() == 0,
    {
        self.server.as_str().unicode_len() == 0
    }

    /// True for a broadcast list other than the status broadcast.
    pub fn is_broadcast_list(&self) -> (r: bool)
        ensures
            r <==> (self@.server == BROADCAST_SERVER@ && self@.user != "status"@),
    {
        str_eq(self.server.as_str(), BROADCAST_SERVER) && !str_eq(self.user.as_str(), "status")
    }

    /// The name and device number of the Signal-protocol address for
    /// this identity: the user alone for agent 0, else the user and
    /// the effective agent joined by an underscore. The excluded
    /// session-store layer turns the pair into its address type.
    pub fn signal_address_parts(&self) -> (r: (String, u32))
        ensures
            r.1 == self@.device as u32,
            ({
                let agent = if self@.server == DEFAULT_USER_SERVER@ {
                    0u8
                } else if self@.server == HIDDEN_USER_SERVER@ {
                    1u8
                } else {
                    self@.raw_agent
                };
                r.0@ == if agent == 0 {
                    self@.user
                } else {
                    self@.user + "_"@ + dec_digits(agent as nat)
                }
            }),
    {
        proof {
            reveal_strlit("_");
        }
        let agent = self.actual_agent();
        let name = if agent == 0 {
            self.user.clone()
        } else {
            let mut s = self.user.clone();
            s.append("_");
            let digits = u64_to_dec_string(agent as u64);
            s.append(digits.as_str());
            s
        };
        (name, self.device as u32)
    }

    /// The always-explicit `user.agent:device@server` form.
    pub fn ad_string(&self) -> (r: String)
        ensures
            r@ == ad_text(self@),
    {
        proof {
            reveal_strlit(".");
            reveal_strlit(":");
            reveal_strlit("@");
        }
        let mut s = self.user.clone();
        s.append(".");
        let agent_digits = u64_to_dec_string(self.raw_agent as u64);
        s.append(agent_digits.as_str());
        s.append(":");
        let device_digits = u64_to_dec_string(self.device as u64);
        s.append(device_digits.as_str());
        s.append("@");
        s.append(self.server.as_str());
        proof {
            assert(s@ =~= ad_text(self@));
        }
        s
    }

    /// The human-readable text form: `user[.agent][:device]@server`, with
    /// the agent segment only when the raw agent is nonzero, the device
    /// segment only when the device is nonzero outside the agent form,
    /// and the bare server when there is no user at all.
    pub fn to_text(&self) -> (r: String)
        ensures
            r@ == jid_text(self@),
    {
        proof {
            reveal_strlit(".");
            reveal_strlit(":");
            reveal_strlit("@");
        }
        if self.raw_agent > 0 {
            self.ad_string()
        } else if self.device > 0 {
            let mut s = self.user.clone();
            s.append(":");
            let device_digits = u64_to_dec_string(self.device as u64);
            s.append(device_digits.as_str());
            s.append("@");
            s.append(self.server.as_str());
            proof {
                assert(s@ =~= jid_text(self@));
            }
            s
        } else if self.user.as_str().unicode_len() > 0 {
            let mut s = self.user.clone();
            s.append("@");
            s.append(self.server.as_str());
            proof {
                assert(s@ =~= jid_text(self@));
            }
            s
        } else {
            self.server.clone()
        }
    }

    /// Parses the text form. Exactly the strings produced by well-formed
    /// identities are accepted; surplus `@`, `.` or `:` delimiters are
    /// rejected rather than silently truncated.
    pub fn parse_text(s: &str) -> (r: Result<JID, JIDParseError>)
        ensures
            r matches Ok(j) ==> parse_jid_text(s@) == Ok::<JidV, JIDParseError>(j@),
            r matches Err(e) ==> parse_jid_text(s@) == Err::<JidV, JIDParseError>(e),
    {
        let n = s.unicode_len();
        match find_char(s, '@') {
            None => Ok(JID::new(String::new(), s.to_owned())),
            Some(p) => {
                proof {
                    lemma_find_ch_some_at(s@, '@');
                }
                let user_part = s.substring_char(0, p);
                let server_part = s.substring_char(p + 1, n);
                proof {
                    assert(user_part@ =~= s@.take(p as int));
                    assert(server_part@ =~= s@.skip(p + 1));
                }
                if find_char(server_part, '@').is_some() {
                    return Err(JIDParseError::UnexpectedAts);
                }
                let server = server_part.to_owned();
                match Self::parse_user_part(user_part) {
                    Ok(mut j) => {
                        j.server = server;
                        proof {
                            assert(j@ == parse_user_v(s@.take(p as int), s@.skip(p + 1)).unwrap());
                        }
                        Ok(j)
                    },
                    Err(e) => Err(e),
                }
            },
        }
    }

    /// Parses the part before `@`: `user[.agent[:device]]` or `user[:device]`.
    /// The returned JID has an empty server; the caller fills it in.
    fn parse_user_part(u: &str) -> (r: Result<JID, JIDParseError>)
        ensures
            r matches Ok(j) ==> parse_user_v(u@, Seq::empty()) == Ok::<JidV, JIDParseError>(j@),
            r matches Err(e) ==> parse_user_v(u@, Seq::empty()) == Err::<JidV, JIDParseError>(e),
            r matches Ok(j) ==> j@.server == Seq::<char>::empty(),
    {
        let n = u.unicode_len();
        match find_char(u, '.') {
            Some(q) => {
                proof {
                    lemma_find_ch_some_at(u@, '.');
                }
                let base = u.substring_char(0, q);
                let ad = u.substring_char(q + 1, n);
                proof {
                    assert(base@ =~= u@.take(q as int));
                    assert(ad@ =~= u@.skip(q + 1));
                }
                if find_char(ad, '.').is_some() {
                    return Err(JIDParseError::UnexpectedDots);
                }
                let m = ad.unicode_len();
                match find_char(ad, ':') {
                    Some(t) => {
                        proof {
                            lemma_find_ch_some_at(ad@, ':');
                        }
                        let agent_str = ad.substring_char(0, t);
                        let dev_str = ad.substring_char(t + 1, m);
                        proof {
                            assert(agent_str@ =~= ad@.take(t as int));
                            assert(dev_str@ =~= ad@.skip(t + 1));
                        }
                        if find_char(dev_str, ':').is_some() {
                            return Err(JIDParseError::UnexpectedColons);
                        }
                        let agent = match parse_dec_u8(agent_str) {
                            Some(a) => a,
                            None => {
                                return Err(JIDParseError::InvalidAgent);
                            },
                        };
                        let device = match parse_dec_u16(dev_str) {
                            Some(d) => d,
                            None => {
                                return Err(JIDParseError::InvalidDevice);
                            },
                        };
                        let mut j = JID::new(base.to_owned(), String::new());
                        j.raw_agent = agent;
                        j.device = device;
                        Ok(j)
                    },
                    None => {
                        let agent = match parse_dec_u8(ad) {
                            Some(a) => a,
                            None => {
                                return Err(JIDParseError::InvalidAgent);
                            },
                        };
                        let mut j = JID::new(base.to_owned(), String::new());
                        j.raw_agent = agent;
                        Ok(j)
                    },
                }
            },
            None => {
                match find_char(u, ':') {
                    Some(t) => {
                        proof {
                            lemma_find_ch_some_at(u@, ':');
                        }
                        let base = u.substring_char(0, t);
                        let dev_str = u.substring_char(t + 1, n);
                        proof {
                            assert(base@ =~= u@.take(t as int));
                            assert(dev_str@ =~= u@.skip(t + 1));
                        }
                        if find_char(dev_str, ':').is_some() {
                            return Err(JIDParseError::UnexpectedColons);
                        }
                        let device = match parse_dec_u16(dev_str) {
                            Some(d) => d,
                            None => {
                                return Err(JIDParseError::InvalidDevice);
                            },
                        };
                        let mut j = JID::new(base.to_owned(), String::new());
                        j.device = device;
                        Ok(j)
                    },
                    None => Ok(JID::new(u.to_owned(), String::new())),
                }
            },
        }
    }
}

/// Errors of [`JID::parse_text`].
#[derive(Clone, Copy, Debug, PartialEq, Eq, Structural)]
pub enum JIDParseError {
    /// More than one `@` delimiter.
    UnexpectedAts,
    /// More than one `.` delimiter before the `@`.
    UnexpectedDots,
    /// More than one `:` delimiter in the agent/device cluster.
    UnexpectedColons,
    /// The agent segment is not a decimal byte.
    InvalidAgent,
    /// The device segment is not a decimal 16-bit number.
    InvalidDevice,
}

/// The explicit `user.agent:device@server` form.
pub open spec fn ad_text(j: JidV) -> Seq<char> {
    j.user + seq!['.'] + dec_digits(j.raw_agent as nat) + seq![':'] + dec_digits(j.device as nat)
        + seq!['@'] + j.server
}

/// The text form of a JID; see [`JID::to_text`].
pub open spec fn jid_text(j: JidV) -> Seq<char> {
    if j.raw_agent > 0 {
        ad_text(j)
    } else if j.device > 0 {
        j.user + seq![':'] + dec_digits(j.device as nat) + seq!['@'] + j.server
    } else if j.user.len() > 0 {
        j.user + seq!['@'] + j.server
    } else {
        j.server
    }
}

/// A digit string that fits the numeric range `0..=max`.
pub open spec fn dec_fits(s: Seq<char>, max: nat) -> bool {
    s.len() > 0 && all_dec_digits(s) && dec_val(s) <= max
}

/// What parsing the text form yields; see [`JID::parse_text`].
pub open spec fn parse_jid_text(s: Seq<char>) -> Result<JidV, JIDParseError> {
    match find_ch(s, '@') {
        None => Ok(
            JidV { user: Seq::empty(), raw_agent: 0, device: 0, server: s, integrator: 0 },
        ),
        Some(p) => {
            if find_ch(s.skip(p as int + 1), '@') is Some {
                Err(JIDParseError::UnexpectedAts)
            } else {
                parse_user_v(s.take(p as int), s.skip(p as int + 1))
            }
        },
    }
}

/// Parsing of the part before `@`, paired with an already-split server.
pub open spec fn parse_user_v(u: Seq<char>, server: Seq<char>) -> Result<JidV, JIDParseError> {
    match find_ch(u, '.') {
        Some(q) => {
            let ad = u.skip(q as int + 1);
            if find_ch(ad, '.') is Some {
                Err(JIDParseError::UnexpectedDots)
            } else {
                match find_ch(ad, ':') {
                    Some(t) => {
                        let agent_s = ad.take(t as int);
                        let dev_s = ad.skip(t as int + 1);
                        if find_ch(dev_s, ':') is Some {
                            Err(JIDParseError::UnexpectedColons)
                        } else if !dec_fits(agent_s, u8::MAX as nat) {
                            Err(JIDParseError::InvalidAgent)
                        } else if !dec_fits(dev_s, u16::MAX as nat) {
                            Err(JIDParseError::InvalidDevice)
                        } else {
                            Ok(
                                JidV {
                                    user: u.take(q as int),
                                    raw_agent: dec_val(agent_s) as u8,
                                    device: dec_val(dev_s) as u16,
                                    server,
                                    integrator: 0,
                                },
                            )
                        }
                    },
                    None => {
                        if !dec_fits(ad, u8::MAX as nat) {
                            Err(JIDParseError::InvalidAgent)
                        } else {
                            Ok(
                                JidV {
                                    user: u.take(q as int),
                                    raw_agent: dec_val(ad) as u8,
                                    device: 0,
                                    server,
                                    integrator: 0,
                                },
                            )
                        }
                    },
                }
            }
        },
        None => {
            match find_ch(u, ':') {
                Some(t) => {
                    let dev_s = u.skip(t as int + 1);
                    if find_ch(dev_s, ':') is Some {
                        Err(JIDParseError::UnexpectedColons)
                    } else if !dec_fits(dev_s, u16::MAX as nat) {
                        Err(JIDParseError::InvalidDevice)
                    } else {
                        Ok(
                            JidV {
                                user: u.take(t as int),
                                raw_agent: 0,
                                device: dec_val(dev_s) as u16,
                                server,
                                integrator: 0,
                            },
                        )
                    }
                },
                None => Ok(JidV { user: u, raw_agent: 0, device: 0, server, integrator: 0 }),
            }
        },
    }
}

/// Searching a one-character sequence.
proof fn lemma_find_ch_single(c: char, d: char)
    ensures
        find_ch(seq![c], d) == if c == d {
            Some(0nat)
        } else {
            None::<nat>
        },
{
    reveal_with_fuel(find_ch, 2);
    let s = seq![c];
    assert(s.drop_first() =~= Seq::<char>::empty());
}

/// Identities whose text form carries every field: the integrator is not
/// printed, and a delimiter inside the user or server would be read back
/// as structure.
pub open spec fn jid_text_roundtrippable(j: JidV) -> bool {
    &&& j.integrator == 0
    &&& find_ch(j.user, '@') is None
    &&& find_ch(j.user, '.') is None
    &&& find_ch(j.user, ':') is None
    &&& find_ch(j.server, '@') is None
}

/// Text round trip: printing a well-formed identity and parsing the text
/// yields the identity back, field for field.
#[verifier::spinoff_prover]
#[verifier::rlimit(100)]
pub proof fn lemma_jid_text_round_trip(j: JidV)
    requires
        jid_text_roundtrippable(j),
    ensures
        parse_jid_text(jid_text(j)) == Ok::<JidV, JIDParseError>(j),
{
    lemma_find_ch_single('.', '@');
    lemma_find_ch_single(':', '@');
    lemma_find_ch_single('.', '.');
    lemma_find_ch_single(':', '.');
    lemma_find_ch_single(':', ':');
    if j.raw_agent > 0 {
        let ua = dec_digits(j.raw_agent as nat);
        let ud = dec_digits(j.device as nat);
        lemma_dec_digits_val(j.raw_agent as nat);
        lemma_dec_digits_val(j.device as nat);
        lemma_digits_no_delims(ua);
        lemma_digits_no_delims(ud);
        let up = j.user + seq!['.'] + ua + seq![':'] + ud;
        let s = jid_text(j);
        assert(s =~= up + (seq!['@'] + j.server));
        // No '@' anywhere in the user part.
        lemma_find_ch_concat(j.user, seq!['.'], '@');
        lemma_find_ch_concat(j.user + seq!['.'], ua, '@');
        lemma_find_ch_concat(j.user + seq!['.'] + ua, seq![':'], '@');
        lemma_find_ch_concat(j.user + seq!['.'] + ua + seq![':'], ud, '@');
        // The one '@' splits user part from server.
        assert((seq!['@'] + j.server)[0] == '@');
        lemma_find_ch_concat(up, seq!['@'] + j.server, '@');
        assert(find_ch(seq!['@'] + j.server, '@') == Some(0nat));
        let p = up.len() as int;
        assert(find_ch(s, '@') == Some(up.len()));
        assert(s.take(p) =~= up);
        assert(s.skip(p + 1) =~= j.server);
        // The first '.' ends the base user.
        let rest2 = ua + seq![':'] + ud;
        assert(up =~= j.user + (seq!['.'] + rest2));
        assert((seq!['.'] + rest2)[0] == '.');
        lemma_find_ch_concat(j.user, seq!['.'] + rest2, '.');
        let q = j.user.len() as int;
        assert(find_ch(up, '.') == Some(j.user.len()));
        assert(up.skip(q + 1) =~= rest2);
        // No further '.' after it.
        lemma_find_ch_concat(ua, seq![':'], '.');
        lemma_find_ch_concat(ua + seq![':'], ud, '.');
        assert(find_ch(rest2, '.') is None);
        // The one ':' splits agent from device.
        assert(rest2 =~= ua + (seq![':'] + ud));
        assert((seq![':'] + ud)[0] == ':');
        lemma_find_ch_concat(ua, seq![':'] + ud, ':');
        let t = ua.len() as int;
        assert(find_ch(rest2, ':') == Some(ua.len()));
        assert(rest2.take(t) =~= ua);
        assert(rest2.skip(t + 1) =~= ud);
        assert(up.take(q) =~= j.user);
        assert(dec_fits(ua, u8::MAX as nat));
        assert(dec_fits(ud, u16::MAX as nat));
        assert(parse_jid_text(jid_text(j)) == Ok::<JidV, JIDParseError>(j));
    } else if j.device > 0 {
        let ud = dec_digits(j.device as nat);
        lemma_dec_digits_val(j.device as nat);
        lemma_digits_no_delims(ud);
        let up = j.user + seq![':'] + ud;
        let s = jid_text(j);
        assert(s =~= up + (seq!['@'] + j.server));
        lemma_find_ch_concat(j.user, seq![':'], '@');
        lemma_find_ch_concat(j.user + seq![':'], ud, '@');
        assert((seq!['@'] + j.server)[0] == '@');
        lemma_find_ch_concat(up, seq!['@'] + j.server, '@');
        let p = up.len() as int;
        assert(find_ch(s, '@') == Some(up.len()));
        assert(s.take(p) =~= up);
        assert(s.skip(p + 1) =~= j.server);
        // No '.' anywhere in the user part.
        lemma_find_ch_concat(j.user, seq![':'], '.');
        lemma_find_ch_concat(j.user + seq![':'], ud, '.');
        assert(find_ch(up, '.') is None);
        // The one ':' starts the device.
        assert(up =~= j.user + (seq![':'] + ud));
        assert((seq![':'] + ud)[0] == ':');
        lemma_find_ch_concat(j.user, seq![':'] + ud, ':');
        let t = j.user.len() as int;
        assert(find_ch(up, ':') == Some(j.user.len()));
        assert(up.take(t) =~= j.user);
        assert(up.skip(t + 1) =~= ud);
        assert(dec_fits(ud, u16::MAX as nat));
        assert(parse_jid_text(jid_text(j)) == Ok::<JidV, JIDParseError>(j));
    } else if j.user.len() > 0 {
        let s = jid_text(j);
        assert(s =~= j.user + (seq!['@'] + j.server));
        assert((seq!['@'] + j.server)[0] == '@');
        lemma_find_ch_concat(j.user, seq!['@'] + j.server, '@');
        let p = j.user.len() as int;
        assert(find_ch(s, '@') == Some(j.user.len()));
        assert(s.take(p) =~= j.user);
        assert(s.skip(p + 1) =~= j.server);
        assert(parse_jid_text(jid_text(j)) == Ok::<JidV, JIDParseError>(j));
    } else {
        assert(j.user =~= Seq::<char>::empty());
        assert(parse_jid_text(jid_text(j)) == Ok::<JidV, JIDParseError>(j));
    }
}

} // verus!
