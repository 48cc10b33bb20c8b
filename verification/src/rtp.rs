//! RTP sessions of the core.

use vstd::prelude::*;
use vstd::utf8::encode_utf8;
use crate::command::{
    borrowed_cstr_to_string, c_safe, c_safe_is_without_nul, cstring, reply_text, text_is, CText,
};
use crate::handle::{allocated, allocated_at, maybe_at, Address, At, Handle, NULL};
use crate::pool::Pool;
use crate::status::{
    generic_error, status_outcome, status_to_result, switch_bool, switch_bool_of, RawStatus, Result,
    SwitchBool, SwitchError,
};

verus! {

/// The number of flags of an RTP session.
pub const RTP_FLAG_COUNT: usize = 50;

/// An RTP session of the core.
#[derive(Debug)]
pub struct Rtp {
    raw: Handle,
}

impl At for Rtp {
    closed spec fn addr(&self) -> Address {
        self.raw.addr()
    }
}

impl Rtp {
    /// Wraps an address; `None` for the null pointer.
    pub fn from_raw(raw: Address) -> (r: Option<Rtp>)
        ensures
            maybe_at(r, raw),
    {
        match Handle::new(raw) {
            Some(raw) => Some(Rtp { raw }),
            None => None,
        }
    }

    /// The address, which is never null.
    pub fn as_ptr(&self) -> (r: Address)
        ensures
            r == self.addr(),
            r != NULL,
    {
        self.raw.as_ptr()
    }
}

impl Rtp {
    /// Sends the frame at `frame`. Returns the number of bytes; a negative answer is an error.
    pub fn write_frame<F>(&self, frame: Address, call: F) -> (r: Result<u32>)
        where
            F: FnOnce(Address, Address) -> i32,
        requires
            call.requires((self.addr(), frame)),
        ensures
            exists|written: i32| #[trigger]
                call.ensures((self.addr(), frame), written) && r == if written < 0 {
                    Err::<u32, SwitchError>(generic_error())
                } else {
                    Ok(written as u32)
                },
    {
        let written: i32 = call(self.as_ptr(), frame);
        if written < 0 {
            return Err(SwitchError::generic());
        }
        Ok(written as u32)
    }

    /// Reads into the frame at `frame`, without copying.
    pub fn read_frame<F>(&self, frame: Address, io_flags: u32, call: F) -> (r: Result<()>)
        where
            F: FnOnce(Address, Address, u32) -> RawStatus,
        requires
            call.requires((self.addr(), frame, io_flags)),
        ensures
            exists|reply: RawStatus| {
                &&& #[trigger] call.ensures((self.addr(), frame, io_flags), reply)
                &&& r == status_outcome(reply)
            },
    {
        status_to_result(call(self.as_ptr(), frame, io_flags))
    }

    /// The host at the other end.
    pub fn remote_host<F>(&self, call: F) -> (r: Option<String>)
        where
            F: FnOnce(Address) -> Option<Vec<u8>>,
        requires
            call.requires((self.addr(),)),
        ensures
            exists|reply: Option<Vec<u8>>| {
                &&& #[trigger] call.ensures((self.addr(),), reply)
                &&& text_is(r, reply_text(reply))
            },
    {
        borrowed_cstr_to_string(call(self.as_ptr()))
    }

    /// The port at the other end.
    pub fn remote_port<F>(&self, call: F) -> (r: u16)
        where
            F: FnOnce(Address) -> u16,
        requires
            call.requires((self.addr(),)),
        ensures
            call.ensures((self.addr(),), r),
    {
        call(self.as_ptr())
    }

    /// Sets the other end. `call` also reports whether the core wrote an error message, which is an
    /// error even where the status is success.
    pub fn set_remote_address<F>(
        &self,
        host: &str,
        port: u16,
        remote_rtcp_port: u16,
        change_adv_addr: bool,
        call: F,
    ) -> (r: Result<()>)
        where
            F: FnOnce(Address, &CText, u16, u16, SwitchBool) -> (RawStatus, bool),
        requires
            c_safe(host@) ==> forall|host_c: &CText|
                #![trigger call.requires(
                    (
                        self.addr(),
                        host_c,
                        port,
                        remote_rtcp_port,
                        switch_bool_of(change_adv_addr),
                    ),
                )]
                host_c.spells(host@) ==> call.requires(
                    (
                        self.addr(),
                        host_c,
                        port,
                        remote_rtcp_port,
                        switch_bool_of(change_adv_addr),
                    ),
                ),
        ensures
            !c_safe(host@) ==> r == Err::<(), SwitchError>(generic_error()),
            c_safe(host@) ==> exists|host_c: &CText, status: RawStatus, message: bool| {
                &&& host_c.spells(host@)
                &&& #[trigger] call.ensures(
                    (
                        self.addr(),
                        host_c,
                        port,
                        remote_rtcp_port,
                        switch_bool_of(change_adv_addr),
                    ),
                    (status, message),
                )
                &&& r == match status_outcome(status) {
                    Ok(_) if message => Err::<(), SwitchError>(generic_error()),
                    outcome => outcome,
                }
            },
    {
        let host = cstring(host)?;
        let (status, message) = call(
            self.as_ptr(),
            &host,
            port,
            remote_rtcp_port,
            switch_bool(change_adv_addr),
        );
        status_to_result(status)?;
        if message {
            return Err(SwitchError::generic());
        }
        Ok(())
    }

    /// Sets this end and binds its socket.
    pub fn set_local_address<F>(&self, host: &str, port: u16, call: F) -> (r: Result<()>)
        where
            F: FnOnce(Address, &CText, u16) -> RawStatus,
        requires
            c_safe(host@) ==> forall|host_c: &CText|
                #![trigger call.requires((self.addr(), host_c, port))]
                host_c.spells(host@) ==> call.requires((self.addr(), host_c, port)),
        ensures
            !c_safe(host@) ==> r == Err::<(), SwitchError>(generic_error()),
            c_safe(host@) ==> exists|host_c: &CText, reply: RawStatus| {
                &&& host_c.spells(host@)
                &&& #[trigger] call.ensures((self.addr(), host_c, port), reply)
                &&& r == status_outcome(reply)
            },
    {
        let host = cstring(host)?;
        status_to_result(call(self.as_ptr(), &host, port))
    }

    /// Whether the session is ready.
    pub fn ready<F>(&self, call: F) -> (r: bool)
        where
            F: FnOnce(Address) -> u8,
        requires
            call.requires((self.addr(),)),
        ensures
            exists|reply: u8| {
                &&& #[trigger] call.ensures((self.addr(),), reply)
                &&& r == (reply != 0)
            },
    {
        let reply: u8 = call(self.as_ptr());
        reply != 0
    }

    /// Closes the socket and keeps the session.
    pub fn kill_socket<F>(&self, call: F)
        where
            F: FnOnce(Address),
        requires
            call.requires((self.addr(),)),
        ensures
            call.ensures((self.addr(),), ()),
    {
        call(self.as_ptr())
    }
}

/// How an RTP session is made. A host that is not set is the local host, a number zero, and a
/// timer none.
#[derive(Debug, Clone)]
pub struct RtpConfig {
    pub rx_host: Option<String>,
    pub rx_port: u16,
    pub tx_host: Option<String>,
    pub tx_port: u16,
    pub payload: u8,
    pub samples_per_interval: u32,
    pub ms_per_packet: u32,
    pub flags: [u32; 50],
    pub timer_name: Option<String>,
    pub bundle_internal_port: u16,
    pub bundle_external_port: u16,
}

/// A session as it is asked for: what a config amounts to.
#[derive(Debug, Copy, Clone)]
pub struct RtpRequest<'a> {
    pub rx_host: &'a CText,
    pub rx_port: u16,
    pub tx_host: &'a CText,
    pub tx_port: u16,
    pub payload: u8,
    pub samples_per_interval: u32,
    pub ms_per_packet: u32,
    pub flags: [u32; 50],
    pub timer_name: Option<&'a CText>,
    pub pool: Address,
    pub bundle_internal_port: u16,
    pub bundle_external_port: u16,
}

/// The host that a config means.
pub open spec fn host_of(host: Option<String>) -> Seq<char> {
    match host {
        Some(h) => h@,
        None => "127.0.0.1"@,
    }
}

/// Whether every flag slot is empty or holds its own number.
pub open spec fn flags_in_place(flags: Seq<u32>) -> bool {
    forall|i: int| 0 <= i < flags.len() ==> flags[i] == 0 || #[trigger] flags[i] == i
}

/// The slots with one more flag set. A number that is no flag changes nothing.
pub open spec fn with_flag(flags: Seq<u32>, flag: u32) -> Seq<u32> {
    if flag < RTP_FLAG_COUNT {
        flags.update(flag as int, flag)
    } else {
        flags
    }
}

/// The order in which flags are set is of no account, and setting one twice is setting it once.
pub proof fn flags_commute(flags: Seq<u32>, a: u32, b: u32)
    requires
        flags.len() == RTP_FLAG_COUNT,
    ensures
        with_flag(with_flag(flags, a), b) == with_flag(with_flag(flags, b), a),
        with_flag(with_flag(flags, a), a) == with_flag(flags, a),
{
    assert(with_flag(with_flag(flags, a), b) =~= with_flag(with_flag(flags, b), a));
    assert(with_flag(with_flag(flags, a), a) =~= with_flag(flags, a));
}

impl RtpConfig {
    /// Whether all texts of the config can be handed over.
    pub open spec fn safe(&self) -> bool {
        &&& c_safe(host_of(self.rx_host))
        &&& c_safe(host_of(self.tx_host))
        &&& self.timer_name matches Some(t) ==> c_safe(t@)
    }

    /// Whether a request asks for what the config says, in the pool at `pool`.
    pub open spec fn asks(&self, q: RtpRequest<'_>, pool: Address) -> bool {
        &&& q.rx_host.spells(host_of(self.rx_host))
        &&& q.rx_port == self.rx_port
        &&& q.tx_host.spells(host_of(self.tx_host))
        &&& q.tx_port == self.tx_port
        &&& q.payload == self.payload
        &&& q.samples_per_interval == self.samples_per_interval
        &&& q.ms_per_packet == self.ms_per_packet
        &&& q.flags == self.flags
        &&& q.timer_name is Some <==> self.timer_name is Some
        &&& q.timer_name matches Some(t) ==> t.spells(self.timer_name->0@)
        &&& q.pool == pool
        &&& q.bundle_internal_port == self.bundle_internal_port
        &&& q.bundle_external_port == self.bundle_external_port
    }

    /// A config with nothing set.
    pub fn new() -> (r: RtpConfig)
        ensures
            r.rx_host is None,
            r.rx_port == 0,
            r.tx_host is None,
            r.tx_port == 0,
            r.payload == 0,
            r.samples_per_interval == 0,
            r.ms_per_packet == 0,
            forall|i: int| 0 <= i < RTP_FLAG_COUNT ==> r.flags@[i] == 0,
            flags_in_place(r.flags@),
            r.timer_name is None,
            r.bundle_internal_port == 0,
            r.bundle_external_port == 0,
    {
        RtpConfig {
            rx_host: None,
            rx_port: 0,
            tx_host: None,
            tx_port: 0,
            payload: 0,
            samples_per_interval: 0,
            ms_per_packet: 0,
            flags: [0; 50],
            timer_name: None,
            bundle_internal_port: 0,
            bundle_external_port: 0,
        }
    }

    /// Sets the host of this end.
    pub fn rx_host(self, text: &str) -> (r: RtpConfig)
        ensures
            r == (RtpConfig { rx_host: r.rx_host, ..self }),
            r.rx_host matches Some(t) && t@ == text@,
    {
        RtpConfig { rx_host: Some(text.to_owned()), ..self }
    }

    /// Sets the port of this end; zero leaves the choice to the system.
    pub fn rx_port(self, rx_port: u16) -> (r: RtpConfig)
        ensures
            r == (RtpConfig { rx_port, ..self }),
    {
        RtpConfig { rx_port, ..self }
    }

    /// Sets the host of the other end.
    pub fn tx_host(self, text: &str) -> (r: RtpConfig)
        ensures
            r == (RtpConfig { tx_host: r.tx_host, ..self }),
            r.tx_host matches Some(t) && t@ == text@,
    {
        RtpConfig { tx_host: Some(text.to_owned()), ..self }
    }

    /// Sets the port of the other end.
    pub fn tx_port(self, tx_port: u16) -> (r: RtpConfig)
        ensures
            r == (RtpConfig { tx_port, ..self }),
    {
        RtpConfig { tx_port, ..self }
    }

    /// Sets the payload number.
    pub fn payload(self, payload: u8) -> (r: RtpConfig)
        ensures
            r == (RtpConfig { payload, ..self }),
    {
        RtpConfig { payload, ..self }
    }

    /// Sets the number of samples in a packet.
    pub fn samples_per_interval(self, samples_per_interval: u32) -> (r: RtpConfig)
        ensures
            r == (RtpConfig { samples_per_interval, ..self }),
    {
        RtpConfig { samples_per_interval, ..self }
    }

    /// Sets the length of a packet in milliseconds.
    pub fn ms_per_packet(self, ms_per_packet: u32) -> (r: RtpConfig)
        ensures
            r == (RtpConfig { ms_per_packet, ..self }),
    {
        RtpConfig { ms_per_packet, ..self }
    }

    /// Sets the name of the timer.
    pub fn timer_name(self, text: &str) -> (r: RtpConfig)
        ensures
            r == (RtpConfig { timer_name: r.timer_name, ..self }),
            r.timer_name matches Some(t) && t@ == text@,
    {
        RtpConfig { timer_name: Some(text.to_owned()), ..self }
    }

    /// Sets the internal port of a bundle.
    pub fn bundle_internal_port(self, bundle_internal_port: u16) -> (r: RtpConfig)
        ensures
            r == (RtpConfig { bundle_internal_port, ..self }),
    {
        RtpConfig { bundle_internal_port, ..self }
    }

    /// Sets the external port of a bundle.
    pub fn bundle_external_port(self, bundle_external_port: u16) -> (r: RtpConfig)
        ensures
            r == (RtpConfig { bundle_external_port, ..self }),
    {
        RtpConfig { bundle_external_port, ..self }
    }

    /// Sets a flag and leaves the others alone. A number that is no flag changes nothing.
    pub fn flag(self, flag: u32) -> (r: RtpConfig)
        ensures
            r == (RtpConfig { flags: r.flags, ..self }),
            r.flags@ == with_flag(self.flags@, flag),
            flags_in_place(self.flags@) ==> flags_in_place(r.flags@),
    {
        let mut config = self;
        let idx: usize = flag as usize;
        if idx < RTP_FLAG_COUNT {
            config.flags[idx] = flag;
        }
        proof {
            assert(config.flags@ =~= with_flag(self.flags@, flag));
        }
        config
    }

    /// Makes the session, in a pool. `call` is handed what the config asks for, and returns the
    /// session's address and whether the core wrote an error message. No session is an error, and so
    /// is a message; a session that comes with a message stays with the pool.
    pub fn build<F>(&self, pool: &Pool, call: F) -> (r: Result<Rtp>)
        where
            F: FnOnce(RtpRequest<'_>) -> (Address, bool),
        requires
            self.safe() ==> forall|q: RtpRequest<'_>|
                #![trigger call.requires((q,))]
                self.asks(q, pool.addr()) ==> call.requires((q,)),
        ensures
            !self.safe() ==> r == Err::<Rtp, SwitchError>(generic_error()),
            self.safe() ==> exists|q: RtpRequest<'_>, raw: Address, message: bool|
                self.asks(q, pool.addr()) && q.rx_port == self.rx_port && q.tx_port == self.tx_port
                    && q.payload == self.payload && q.samples_per_interval
                    == self.samples_per_interval && q.ms_per_packet == self.ms_per_packet && q.flags
                    == self.flags && q.pool == pool.addr() && q.bundle_internal_port
                    == self.bundle_internal_port && q.bundle_external_port
                    == self.bundle_external_port && #[trigger] call.ensures((q,), (raw, message)) && (
                if message {
                    r == Err::<Rtp, SwitchError>(generic_error())
                } else {
                    allocated_at(r, raw)
                }),
    {
        let rx_host = cstring(
            match &self.rx_host {
                Some(h) => h.as_str(),
                None => "127.0.0.1",
            },
        )?;
        let tx_host = cstring(
            match &self.tx_host {
                Some(h) => h.as_str(),
                None => "127.0.0.1",
            },
        )?;
        let timer_name = match &self.timer_name {
            Some(t) => Some(cstring(t.as_str())?),
            None => None,
        };
        let (raw, message) = call(
            RtpRequest {
                rx_host: &rx_host,
                rx_port: self.rx_port,
                tx_host: &tx_host,
                tx_port: self.tx_port,
                payload: self.payload,
                samples_per_interval: self.samples_per_interval,
                ms_per_packet: self.ms_per_packet,
                flags: self.flags,
                timer_name: timer_name.as_ref(),
                pool: pool.as_ptr(),
                bundle_internal_port: self.bundle_internal_port,
                bundle_external_port: self.bundle_external_port,
            },
        );
        if message {
            return Err(SwitchError::generic());
        }
        let raw = allocated(raw)?;
        Ok(Rtp { raw })
    }
}

impl Default for RtpConfig {
    fn default() -> (r: RtpConfig)
        ensures
            r.rx_host is None,
            r.rx_port == 0,
            r.tx_host is None,
            r.tx_port == 0,
            r.payload == 0,
            r.samples_per_interval == 0,
            r.ms_per_packet == 0,
            forall|i: int| 0 <= i < RTP_FLAG_COUNT ==> r.flags@[i] == 0,
            r.timer_name is None,
            r.bundle_internal_port == 0,
            r.bundle_external_port == 0,
    {
        RtpConfig::new()
    }
}

/// A free port of a local address; zero where there is none.
pub fn request_port<F>(ip: &str, call: F) -> (r: Result<u16>)
    where
        F: FnOnce(&CText) -> u16,
    requires
        c_safe(ip@) ==> forall|ip_c: &CText|
            #![trigger call.requires((ip_c,))]
            ip_c.spells(ip@) ==> call.requires((ip_c,)),
    ensures
        !c_safe(ip@) ==> r == Err::<u16, SwitchError>(generic_error()),
        c_safe(ip@) ==> exists|ip_c: &CText, reply: u16| {
            &&& ip_c.spells(ip@)
            &&& #[trigger] call.ensures((ip_c,), reply)
            &&& r matches Ok(v) && v == reply
        },
{
    let ip = cstring(ip)?;
    let reply: u16 = call(&ip);
    Ok(reply)
}

/// A request asks for what the config says, each thing under its own name: the local host and port are
/// the ones to receive at, the remote ones those to send to. A host that is not set is the machine
/// itself, and a timer that is not set is none.
pub proof fn requests_ask_for_the_config(config: RtpConfig, q: RtpRequest<'_>, pool: Address)
    requires
        config.asks(q, pool),
    ensures
        q.rx_port == config.rx_port,
        q.tx_port == config.tx_port,
        config.rx_host matches Some(h) ==> q.rx_host@ == encode_utf8(h@),
        config.rx_host is None ==> q.rx_host@ == encode_utf8("127.0.0.1"@),
        config.tx_host matches Some(h) ==> q.tx_host@ == encode_utf8(h@),
        config.tx_host is None ==> q.tx_host@ == encode_utf8("127.0.0.1"@),
        q.payload == config.payload,
        q.samples_per_interval == config.samples_per_interval,
        q.ms_per_packet == config.ms_per_packet,
        forall|i: int| 0 <= i < 50 ==> #[trigger] q.flags@[i] == config.flags@[i],
        config.timer_name matches Some(t) ==> (q.timer_name matches Some(c) && c@ == encode_utf8(t@)),
        config.timer_name is None ==> q.timer_name is None,
        q.pool == pool,
        q.bundle_internal_port == config.bundle_internal_port,
        q.bundle_external_port == config.bundle_external_port,
{
}

/// A config is refused exactly where a text in it that is set holds a NUL character.
pub proof fn configs_without_nul_are_safe(config: RtpConfig)
    ensures
        config.safe() <==> {
            &&& config.rx_host matches Some(h) ==> !h@.contains('\0')
            &&& config.tx_host matches Some(h) ==> !h@.contains('\0')
            &&& config.timer_name matches Some(t) ==> !t@.contains('\0')
        },
{
    reveal_strlit("127.0.0.1");
    assert(c_safe("127.0.0.1"@));
    if let Some(h) = config.rx_host {
        c_safe_is_without_nul(h@);
    }
    if let Some(h) = config.tx_host {
        c_safe_is_without_nul(h@);
    }
    if let Some(t) = config.timer_name {
        c_safe_is_without_nul(t@);
    }
}

/// Setting a flag sets it at its own place and changes no other, and a flag that has no place changes
/// nothing.
pub proof fn a_flag_is_set_in_its_place(flags: Seq<u32>, flag: u32)
    requires
        flags.len() == 50,
    ensures
        with_flag(flags, flag).len() == 50,
        flag < 50 ==> with_flag(flags, flag)[flag as int] == flag,
        forall|i: int|
            0 <= i < 50 && i != flag ==> #[trigger] with_flag(flags, flag)[i] == flags[i],
{
}

} // verus!
