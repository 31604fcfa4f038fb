use vstd::prelude::*;

verus! {

/// A 160-bit account address, held as its top 32 bits and its low 128 bits.
#[derive(Clone, Copy, Debug, Default, PartialEq, Eq, Structural, Hash)]
pub struct Address {
    pub high: u32,
    pub low: u128,
}

/// A 256-bit unsigned integer, held as its two 128-bit halves.
#[derive(Clone, Copy, Debug, Default, PartialEq, Eq, Structural, Hash)]
pub struct U256 {
    pub high: u128,
    pub low: u128,
}

/// A 256-bit hash or log topic, held as its two 128-bit halves.
#[derive(Clone, Copy, Debug, Default, PartialEq, Eq, Structural, Hash)]
pub struct B256 {
    pub high: u128,
    pub low: u128,
}

/// What the backend records of an account: its balance, its nonce and the hash of its code.
#[derive(Clone, Copy, Debug, PartialEq, Eq, Structural)]
pub struct AccountInfo {
    pub balance: U256,
    pub nonce: u64,
    pub code_hash: B256,
}

/// A log record emitted by a transaction.
#[derive(Clone, Debug, PartialEq, Eq)]
pub struct Log {
    pub address: Address,
    pub topics: Vec<B256>,
    pub data: Vec<u8>,
}

pub open spec fn two_pow_128() -> nat {
    0x1_0000_0000_0000_0000_0000_0000_0000_0000nat
}

impl Address {
    /// The address read as an unsigned number.
    pub open spec fn value(&self) -> nat {
        self.high as nat * two_pow_128() + self.low as nat
    }

    /// The address zero.
    pub fn zero() -> (a: Address)
        ensures
            a == (Address { high: 0, low: 0 }),
            a.value() == 0,
    {
        Address { high: 0, low: 0 }
    }

    /// The address whose low 64 bits are `value` and whose other bits are zero.
    pub fn from_low_u64_be(value: u64) -> (a: Address)
        ensures
            a == (Address { high: 0, low: value as u128 }),
            a.value() == value,
    {
        Address { high: 0, low: value as u128 }
    }
}

impl U256 {
    /// The number this value stands for.
    pub open spec fn value(&self) -> nat {
        self.high as nat * two_pow_128() + self.low as nat
    }

    pub fn zero() -> (z: U256)
        ensures
            z == (U256 { high: 0, low: 0 }),
            z.value() == 0,
    {
        U256 { high: 0, low: 0 }
    }

    pub fn from_u64(value: u64) -> (n: U256)
        ensures
            n == (U256 { high: 0, low: value as u128 }),
            n.value() == value,
    {
        U256 { high: 0, low: value as u128 }
    }

    /// The number of an address, as a 256-bit number.
    pub fn from_address(address: Address) -> (n: U256)
        ensures
            n == (U256 { high: address.high as u128, low: address.low }),
            n.value() == address.value(),
    {
        U256 { high: address.high as u128, low: address.low }
    }

    /// The 256-bit number `n`, for `n` below 2^256.
    pub open spec fn of(n: nat) -> U256 {
        U256 { high: (n / two_pow_128()) as u128, low: (n % two_pow_128()) as u128 }
    }

    /// The low 64 bits of `n`.
    pub open spec fn low_64_of(n: nat) -> u64 {
        (n % 0x1_0000_0000_0000_0000) as u64
    }

    /// The low 16 bits of `n`.
    pub open spec fn low_16_of(n: nat) -> u16 {
        (n % 0x1_0000) as u16
    }

    /// The address made of the low 160 bits of `n`.
    pub open spec fn low_address_of(n: nat) -> Address {
        Address {
            high: ((n / two_pow_128()) % 0x1_0000_0000) as u32,
            low: (n % two_pow_128()) as u128,
        }
    }

    /// The two halves of a 256-bit number are the quotient and the remainder of its division by
    /// 2^128.
    pub proof fn lemma_halves(self)
        ensures
            self.value() / two_pow_128() == self.high,
            self.value() % two_pow_128() == self.low,
            U256::of(self.value()) == self,
    {
        let h = self.high as nat;
        let l = self.low as nat;
        let p = two_pow_128();
        assert(l < p);
        assert((h * p + l) / p == h && (h * p + l) % p == l) by (nonlinear_arith)
            requires
                l < p,
                p > 0,
        ;
    }

    /// The low 64 bits of the number.
    pub fn low_u64(&self) -> (r: u64)
        ensures
            r == U256::low_64_of(self.value()),
    {
        let low = self.low;
        let r = (low & 0xffff_ffff_ffff_ffff) as u64;
        proof {
            self.lemma_halves();
            assert(low & 0xffff_ffff_ffff_ffff == low % 0x1_0000_0000_0000_0000) by (bit_vector);
            let v = self.value();
            let p = two_pow_128();
            assert(v % 0x1_0000_0000_0000_0000 == (v % p) % 0x1_0000_0000_0000_0000) by {
                vstd::arithmetic::div_mod::lemma_mod_mod(
                    v as int,
                    0x1_0000_0000_0000_0000,
                    0x1_0000_0000_0000_0000,
                );
            }
        }
        r
    }

    /// The low 16 bits of the number.
    pub fn low_u16(&self) -> (r: u16)
        ensures
            r == U256::low_16_of(self.value()),
    {
        let low = self.low;
        let r = (low & 0xffff) as u16;
        proof {
            self.lemma_halves();
            assert(low & 0xffff == low % 0x1_0000) by (bit_vector);
            let v = self.value();
            assert(v % 0x1_0000 == (v % two_pow_128()) % 0x1_0000) by {
                vstd::arithmetic::div_mod::lemma_mod_mod(
                    v as int,
                    0x1_0000,
                    0x1_0000_0000_0000_0000_0000_0000_0000,
                );
            }
        }
        r
    }

    /// The address made of the low 160 bits of the number.
    pub fn low_address(&self) -> (address: Address)
        ensures
            address == U256::low_address_of(self.value()),
    {
        let high = self.high;
        let top = (high & 0xffff_ffff) as u32;
        proof {
            self.lemma_halves();
            assert(high & 0xffff_ffff == high % 0x1_0000_0000) by (bit_vector);
        }
        Address { high: top, low: self.low }
    }
}

impl B256 {
    /// The Keccak-256 hash of the empty byte string, the code hash of an account without code.
    pub open spec fn keccak_empty() -> B256 {
        B256 {
            high: 0xc5d2_4601_86f7_233c_927e_7db2_dcc7_03c0u128,
            low: 0xe500_b653_ca82_273b_7bfa_d804_5d85_a470u128,
        }
    }
}

impl AccountInfo {
    /// The record of a fresh account: no balance, nonce zero, no code.
    pub open spec fn fresh() -> AccountInfo {
        AccountInfo { balance: U256 { high: 0, low: 0 }, nonce: 0, code_hash: B256::keccak_empty() }
    }

    pub fn new_fresh() -> (info: AccountInfo)
        ensures
            info == AccountInfo::fresh(),
    {
        AccountInfo {
            balance: U256::zero(),
            nonce: 0,
            code_hash: B256 {
                high: 0xc5d2_4601_86f7_233c_927e_7db2_dcc7_03c0u128,
                low: 0xe500_b653_ca82_273b_7bfa_d804_5d85_a470u128,
            },
        }
    }
}

} // verus!
