use vstd::prelude::*;

verus! {

/// The LED controller a grid streams to: its address, its display name,
/// the largest number of LEDs it takes, and whether a connection to it
/// stands. The network connection itself is held by the application.
#[derive(Clone, Debug)]
pub struct ReceiverDevice {
    pub ip: String,
    pub name: String,
    pub max_len: usize,
    pub establish_conn: bool,
}

/// The UDP port LED controllers listen on for DDP.
pub open spec fn receiver_port() -> Seq<char> {
    "4048"@
}

impl ReceiverDevice {
    /// The UDP port LED controllers listen on for DDP.
    pub fn receiver_port() -> (s: &'static str)
        ensures
            s@ == receiver_port(),
    {
        "4048"
    }

    /// A device with the given address, name and length, not yet connected.
    pub fn new(ip: &str, name: &str, max_len: usize) -> (d: Self)
        ensures
            d.ip@ == ip@,
            d.name@ == name@,
            d.max_len == max_len,
            !d.establish_conn,
    {
        Self {
            ip: String::from_str(ip),
            name: String::from_str(name),
            max_len,
            establish_conn: false,
        }
    }

    /// Whether data handed to the device goes out: only while a
    /// connection stands.
    pub fn sends_data(&self) -> (b: bool)
        ensures
            b == self.establish_conn,
    {
        self.establish_conn
    }

    /// The `ip:port` address a connection is opened to.
    pub fn target_address(&self) -> (s: String)
        ensures
            s@ == self.ip@ + ":"@ + receiver_port(),
    {
        let mut s = self.ip.clone();
        s.append(":");
        s.append(Self::receiver_port());
        s
    }

    /// Records the outcome of an attempt to open the connection and
    /// returns it.
    pub fn set_connection_result(&mut self, opened: bool) -> (b: bool)
        ensures
            b == opened,
            final(self).establish_conn == opened,
            final(self).ip == old(self).ip,
            final(self).name == old(self).name,
            final(self).max_len == old(self).max_len,
    {
        self.establish_conn = opened;
        opened
    }
}

impl Default for ReceiverDevice {
    /// The device a new grid starts with.
    fn default() -> (d: Self)
        ensures
            d.ip@ == "192.168.178.102"@,
            d.name@ == "Default"@,
            d.max_len == 400,
            !d.establish_conn,
    {
        Self::new("192.168.178.102", "Default", 400)
    }
}

} // verus!
