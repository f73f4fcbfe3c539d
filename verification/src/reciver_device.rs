use vstd::prelude::*;

verus! {

/// A DDP LED controller addressed by IP, with a display name and an LED
/// count; whether a connection to it stands. The network connection
/// itself is held by the application.
#[derive(Clone, Debug)]
pub struct ReciverDevice {
    pub ip: String,
    pub name: String,
    pub max_len: u64,
    pub establish_conn: bool,
}

/// `len` pixels of full red, as red, green and blue bytes.
pub open spec fn red_fill(len: nat) -> Seq<u8> {
    Seq::new(3 * len, |i: int| if i % 3 == 0 { 255u8 } else { 0u8 })
}

impl ReciverDevice {
    /// A placeholder device named "none" at address "none", not connected.
    pub fn factory() -> (d: Self)
        ensures
            d.ip@ == "none"@,
            d.name@ == "none"@,
            d.max_len == 0,
            !d.establish_conn,
    {
        Self {
            ip: String::from_str("none"),
            name: String::from_str("none"),
            max_len: 0,
            establish_conn: false,
        }
    }

    /// Test data lighting `len` LEDs in full red.
    pub fn testfill_all(len: u64) -> (v: Vec<u8>)
        requires
            3 * len <= usize::MAX,
        ensures
            v@ == red_fill(len as nat),
    {
        let mut vec: Vec<u8> = Vec::new();
        let mut k: u64 = 0;
        while k < len
            invariant
                k <= len,
                3 * len <= usize::MAX,
                vec@ == red_fill(k as nat),
            decreases len - k,
        {
            let ghost before = vec@;
            vec.push(255u8);
            vec.push(0u8);
            vec.push(0u8);
            assert(vec@ =~= red_fill((k + 1) as nat)) by {
                assert forall|i: int| 0 <= i < 3 * (k + 1) implies #[trigger] vec@[i] == (if i % 3 == 0 { 255u8 } else { 0u8 }) by {
                    if i < 3 * k {
                        assert(vec@[i] == before[i]);
                    } else {
                        assert(i == 3 * k || i == 3 * k + 1 || i == 3 * k + 2);
                    }
                }
            }
            k = k + 1;
        }
        vec
    }

    /// Records the device a connection was attempted to, and whether the
    /// attempt opened it (a failed attempt leaves the previous state).
    pub fn record_connection(&mut self, ip: &str, name: &str, max_len: u64, opened: bool)
        ensures
            final(self).ip@ == ip@,
            final(self).name@ == name@,
            final(self).max_len == max_len,
            final(self).establish_conn == (opened || old(self).establish_conn),
    {
        if opened {
            self.establish_conn = true;
        }
        self.ip = String::from_str(ip);
        self.name = String::from_str(name);
        self.max_len = max_len;
    }
}

} // verus!
