use bitvec::order::Msb0;
use bitvec::view::BitView;
use vstd::prelude::*;

verus! {

/// Wire symbol for a logical 1: a long high period.
pub const BIT_HIGH: u8 = 0b11110000;

/// Wire symbol for a logical 0: a short high period.
pub const BIT_LOW: u8 = 0b11000000;

/// Bit `k` of `byte`, counting from the most significant bit (`k == 0`).
pub open spec fn bit_msb(byte: u8, k: int) -> bool {
    (byte >> ((7 - k) as u8)) & 1u8 == 1u8
}

/// Bit `i` of `bytes`, taken byte by byte, each most significant bit first.
pub open spec fn bit_of_seq(bytes: Seq<u8>, i: int) -> bool {
    bit_msb(bytes[i / 8], i % 8)
}

/// The wire byte that stands for one logical bit.
pub open spec fn symbol(bit: bool) -> u8 {
    if bit {
        BIT_HIGH
    } else {
        BIT_LOW
    }
}

/// `a + b`, held at 255 when it overflows.
pub open spec fn sat_add(a: u8, b: u8) -> u8 {
    if a + b > 255 {
        255
    } else {
        (a + b) as u8
    }
}

/// `a - b`, held at 0 when it underflows.
pub open spec fn sat_sub(a: u8, b: u8) -> u8 {
    if a < b {
        0
    } else {
        (a - b) as u8
    }
}

/// `a * b`, held at 255 when it overflows.
pub open spec fn sat_mul(a: u8, b: u8) -> u8 {
    if a * b > 255 {
        255
    } else {
        (a * b) as u8
    }
}

/// `a / b` rounded down, and 0 when `b` is 0.
pub open spec fn div_or_zero(a: u8, b: u8) -> u8 {
    if b == 0 {
        0
    } else {
        (a / b) as u8
    }
}

fn channel_add(a: u8, b: u8) -> (c: u8)
    ensures
        c == sat_add(a, b),
{
    if b > 255 - a {
        255
    } else {
        a + b
    }
}

fn channel_sub(a: u8, b: u8) -> (c: u8)
    ensures
        c == sat_sub(a, b),
{
    if a < b {
        0
    } else {
        a - b
    }
}

fn channel_mul(a: u8, b: u8) -> (c: u8)
    ensures
        c == sat_mul(a, b),
{
    assert(a as int * b as int <= 255 * 255) by (nonlinear_arith)
        requires
            a <= 255,
            b <= 255,
    ;
    let wide: u16 = a as u16 * b as u16;
    if wide > 255 {
        255
    } else {
        wide as u8
    }
}

fn channel_div(a: u8, b: u8) -> (c: u8)
    ensures
        c == div_or_zero(a, b),
{
    if b == 0 {
        0
    } else {
        a / b
    }
}

/// Building an LED from red, green and blue and reading the color channels back
/// gives the same three values, and the white channel is off.
pub proof fn lemma_rgb_round_trip(red: u8, green: u8, blue: u8)
    ensures
        (Led { r: red, g: green, b: blue, w: 0 }).rgb() == seq![red, green, blue],
        (Led { r: red, g: green, b: blue, w: 0 }).w == 0,
{
}

/// Every LED encodes to exactly 32 wire bytes, whatever its channel values.
pub proof fn lemma_encoded_length(led: Led)
    ensures
        led.encoded().len() == 32,
{
}

/// Relies on bitvec's `BitView::view_bits::<Msb0>` and `BitSlice::iter().by_vals()`:
/// the bits of an array come element by element, each element most significant bit first.
#[verifier::external_body]
fn bits_msb_first(bytes: &[u8; 4]) -> (bits: Vec<bool>)
    ensures
        bits@.len() == 32,
        forall|i: int| 0 <= i < 32 ==> bits@[i] == bit_of_seq(bytes@, i),
{
    bytes.view_bits::<Msb0>().iter().by_vals().collect()
}

/// One RGBW LED: four independent 8-bit intensity channels.
#[derive(Clone, Copy, Debug, PartialEq, Eq, Structural)]
pub struct Led {
    pub r: u8,
    pub g: u8,
    pub b: u8,
    pub w: u8,
}

impl Led {
    /// The channels in the order the strip receives them: green, red, blue, white.
    pub open spec fn wire_order(self) -> Seq<u8> {
        seq![self.g, self.r, self.b, self.w]
    }

    /// The 32 wire bytes of this LED: one symbol per logical bit, in wire order.
    pub open spec fn encoded(self) -> Seq<u8> {
        Seq::new(32, |i: int| symbol(bit_of_seq(self.wire_order(), i)))
    }

    /// The LED with every channel set to `v`.
    pub open spec fn splat(v: u8) -> Led {
        Led { r: v, g: v, b: v, w: v }
    }

    /// Channel by channel `self + rhs`, each held at 255.
    pub open spec fn saturating_sum(self, rhs: Led) -> Led {
        Led {
            r: sat_add(self.r, rhs.r),
            g: sat_add(self.g, rhs.g),
            b: sat_add(self.b, rhs.b),
            w: sat_add(self.w, rhs.w),
        }
    }

    /// Channel by channel `self - rhs`, each held at 0.
    pub open spec fn saturating_difference(self, rhs: Led) -> Led {
        Led {
            r: sat_sub(self.r, rhs.r),
            g: sat_sub(self.g, rhs.g),
            b: sat_sub(self.b, rhs.b),
            w: sat_sub(self.w, rhs.w),
        }
    }

    /// Channel by channel `self * rhs`, each held at 255.
    pub open spec fn saturating_product(self, rhs: Led) -> Led {
        Led {
            r: sat_mul(self.r, rhs.r),
            g: sat_mul(self.g, rhs.g),
            b: sat_mul(self.b, rhs.b),
            w: sat_mul(self.w, rhs.w),
        }
    }

    /// Channel by channel `self / rhs`, a zero divisor giving 0 for its channel.
    pub open spec fn quotient(self, rhs: Led) -> Led {
        Led {
            r: div_or_zero(self.r, rhs.r),
            g: div_or_zero(self.g, rhs.g),
            b: div_or_zero(self.b, rhs.b),
            w: div_or_zero(self.w, rhs.w),
        }
    }

    /// The LED with every channel off.
    pub open spec fn zero() -> Led {
        Led::splat(0)
    }

    /// An LED with every channel off.
    pub fn new() -> (led: Led)
        ensures
            led == Led::zero(),
    {
        Led { r: 0, g: 0, b: 0, w: 0 }
    }

    /// The channels in storage order: red, green, blue, white.
    pub open spec fn rgbw(self) -> Seq<u8> {
        seq![self.r, self.g, self.b, self.w]
    }

    /// The color channels alone: red, green, blue.
    pub open spec fn rgb(self) -> Seq<u8> {
        seq![self.r, self.g, self.b]
    }

    /// An LED with the given color and the white channel off.
    pub fn from_rgb(red: u8, green: u8, blue: u8) -> (led: Led)
        ensures
            led == (Led { r: red, g: green, b: blue, w: 0 }),
    {
        Led { r: red, g: green, b: blue, w: 0 }
    }

    /// An LED with the given four channels.
    pub fn from_rgbw(red: u8, green: u8, blue: u8, white: u8) -> (led: Led)
        ensures
            led == (Led { r: red, g: green, b: blue, w: white }),
    {
        Led { r: red, g: green, b: blue, w: white }
    }

    /// An LED from `[red, green, blue]`, with the white channel off.
    pub fn from_rgb_array(data: [u8; 3]) -> (led: Led)
        ensures
            led.rgb() == data@,
            led.w == 0,
    {
        Led { r: data[0], g: data[1], b: data[2], w: 0 }
    }

    /// An LED from `[red, green, blue, white]`.
    pub fn from_rgbw_array(data: [u8; 4]) -> (led: Led)
        ensures
            led.rgbw() == data@,
    {
        Led { r: data[0], g: data[1], b: data[2], w: data[3] }
    }

    /// The channels as `[red, green, blue, white]`.
    pub fn into_rgbw_array(self) -> (data: [u8; 4])
        ensures
            data@ == self.rgbw(),
    {
        let data: [u8; 4] = [self.r, self.g, self.b, self.w];
        assert(data@ =~= self.rgbw());
        data
    }

    /// The color channels as `[red, green, blue]`; white is left out.
    pub fn into_rgb_array(self) -> (data: [u8; 3])
        ensures
            data@ == self.rgb(),
    {
        let data: [u8; 3] = [self.r, self.g, self.b];
        assert(data@ =~= self.rgb());
        data
    }

    /// Encodes this LED for the strip's single-wire protocol: the channels go
    /// green, red, blue, white, each most significant bit first, and each bit
    /// becomes one byte (`BIT_HIGH` for 1, `BIT_LOW` for 0).
    pub fn to_raw_led_bytes(&self) -> (bytes: Vec<u8>)
        ensures
            bytes@ == self.encoded(),
            bytes@.len() == 32,
    {
        let wire: [u8; 4] = [self.g, self.r, self.b, self.w];
        let bits = bits_msb_first(&wire);
        assert(wire@ == self.wire_order());
        let mut bytes: Vec<u8> = Vec::with_capacity(32);
        let mut i: usize = 0;
        while i < 32
            invariant
                i <= 32,
                bits@.len() == 32,
                wire@ == self.wire_order(),
                forall|j: int| 0 <= j < 32 ==> bits@[j] == bit_of_seq(wire@, j),
                bytes@.len() == i,
                forall|j: int| 0 <= j < i ==> bytes@[j] == symbol(bits@[j]),
            decreases 32 - i,
        {
            if bits[i] {
                bytes.push(BIT_HIGH);
            } else {
                bytes.push(BIT_LOW);
            }
            i = i + 1;
        }
        assert(bytes@ =~= self.encoded());
        bytes
    }
}

impl Default for Led {
    fn default() -> (led: Led)
        ensures
            led == Led::zero(),
    {
        Led::new()
    }
}

impl From<[u8; 3]> for Led {
    fn from(data: [u8; 3]) -> (led: Led) {
        Led::from_rgb_array(data)
    }
}

impl vstd::std_specs::convert::FromSpecImpl<[u8; 3]> for Led {
    open spec fn obeys_from_spec() -> bool {
        true
    }

    open spec fn from_spec(data: [u8; 3]) -> Led {
        Led { r: data@[0], g: data@[1], b: data@[2], w: 0 }
    }
}

impl From<[u8; 4]> for Led {
    fn from(data: [u8; 4]) -> (led: Led) {
        Led::from_rgbw_array(data)
    }
}

impl vstd::std_specs::convert::FromSpecImpl<[u8; 4]> for Led {
    open spec fn obeys_from_spec() -> bool {
        true
    }

    open spec fn from_spec(data: [u8; 4]) -> Led {
        Led { r: data@[0], g: data@[1], b: data@[2], w: data@[3] }
    }
}

impl From<Led> for [u8; 3] {
    fn from(led: Led) -> (data: [u8; 3]) {
        led.into_rgb_array()
    }
}

impl vstd::std_specs::convert::FromSpecImpl<Led> for [u8; 3] {
    open spec fn obeys_from_spec() -> bool {
        true
    }

    open spec fn from_spec(led: Led) -> [u8; 3] {
        [led.r, led.g, led.b]
    }
}

impl From<Led> for [u8; 4] {
    fn from(led: Led) -> (data: [u8; 4]) {
        led.into_rgbw_array()
    }
}

impl vstd::std_specs::convert::FromSpecImpl<Led> for [u8; 4] {
    open spec fn obeys_from_spec() -> bool {
        true
    }

    open spec fn from_spec(led: Led) -> [u8; 4] {
        [led.r, led.g, led.b, led.w]
    }
}

impl std::ops::Add for Led {
    type Output = Led;

    /// Adds channel by channel; a sum over 255 is held at 255.
    fn add(self, rhs: Led) -> (led: Led) {
        Led {
            r: channel_add(self.r, rhs.r),
            g: channel_add(self.g, rhs.g),
            b: channel_add(self.b, rhs.b),
            w: channel_add(self.w, rhs.w),
        }
    }
}

impl vstd::std_specs::ops::AddSpecImpl for Led {
    open spec fn obeys_add_spec() -> bool {
        true
    }

    open spec fn add_req(self, rhs: Led) -> bool {
        true
    }

    open spec fn add_spec(self, rhs: Led) -> Led {
        self.saturating_sum(rhs)
    }
}

impl std::ops::Add<u8> for Led {
    type Output = Led;

    /// The scalar goes to all four channels, then as for two LEDs.
    fn add(self, rhs: u8) -> (led: Led) {
        self + Led::from_rgbw(rhs, rhs, rhs, rhs)
    }
}

impl vstd::std_specs::ops::AddSpecImpl<u8> for Led {
    open spec fn obeys_add_spec() -> bool {
        true
    }

    open spec fn add_req(self, rhs: u8) -> bool {
        true
    }

    open spec fn add_spec(self, rhs: u8) -> Led {
        self.saturating_sum(Led::splat(rhs))
    }
}

impl std::ops::AddAssign for Led {
    fn add_assign(&mut self, rhs: Led)
        ensures
            *final(self) == old(self).saturating_sum(rhs),
    {
        *self = *self + rhs;
    }
}

impl std::ops::AddAssign<u8> for Led {
    fn add_assign(&mut self, rhs: u8)
        ensures
            *final(self) == old(self).saturating_sum(Led::splat(rhs)),
    {
        *self = *self + rhs;
    }
}

impl std::ops::Sub for Led {
    type Output = Led;

    /// Subtracts channel by channel; a difference under 0 is held at 0.
    fn sub(self, rhs: Led) -> (led: Led) {
        Led {
            r: channel_sub(self.r, rhs.r),
            g: channel_sub(self.g, rhs.g),
            b: channel_sub(self.b, rhs.b),
            w: channel_sub(self.w, rhs.w),
        }
    }
}

impl vstd::std_specs::ops::SubSpecImpl for Led {
    open spec fn obeys_sub_spec() -> bool {
        true
    }

    open spec fn sub_req(self, rhs: Led) -> bool {
        true
    }

    open spec fn sub_spec(self, rhs: Led) -> Led {
        self.saturating_difference(rhs)
    }
}

impl std::ops::Sub<u8> for Led {
    type Output = Led;

    /// The scalar goes to all four channels, then as for two LEDs.
    fn sub(self, rhs: u8) -> (led: Led) {
        self - Led::from_rgbw(rhs, rhs, rhs, rhs)
    }
}

impl vstd::std_specs::ops::SubSpecImpl<u8> for Led {
    open spec fn obeys_sub_spec() -> bool {
        true
    }

    open spec fn sub_req(self, rhs: u8) -> bool {
        true
    }

    open spec fn sub_spec(self, rhs: u8) -> Led {
        self.saturating_difference(Led::splat(rhs))
    }
}

impl std::ops::SubAssign for Led {
    fn sub_assign(&mut self, rhs: Led)
        ensures
            *final(self) == old(self).saturating_difference(rhs),
    {
        *self = *self - rhs;
    }
}

impl std::ops::SubAssign<u8> for Led {
    fn sub_assign(&mut self, rhs: u8)
        ensures
            *final(self) == old(self).saturating_difference(Led::splat(rhs)),
    {
        *self = *self - rhs;
    }
}

impl std::ops::Mul for Led {
    type Output = Led;

    /// Multiplies channel by channel; a product over 255 is held at 255.
    fn mul(self, rhs: Led) -> (led: Led) {
        Led {
            r: channel_mul(self.r, rhs.r),
            g: channel_mul(self.g, rhs.g),
            b: channel_mul(self.b, rhs.b),
            w: channel_mul(self.w, rhs.w),
        }
    }
}

impl vstd::std_specs::ops::MulSpecImpl for Led {
    open spec fn obeys_mul_spec() -> bool {
        true
    }

    open spec fn mul_req(self, rhs: Led) -> bool {
        true
    }

    open spec fn mul_spec(self, rhs: Led) -> Led {
        self.saturating_product(rhs)
    }
}

impl std::ops::Mul<u8> for Led {
    type Output = Led;

    /// The scalar goes to all four channels, then as for two LEDs.
    fn mul(self, rhs: u8) -> (led: Led) {
        self * Led::from_rgbw(rhs, rhs, rhs, rhs)
    }
}

impl vstd::std_specs::ops::MulSpecImpl<u8> for Led {
    open spec fn obeys_mul_spec() -> bool {
        true
    }

    open spec fn mul_req(self, rhs: u8) -> bool {
        true
    }

    open spec fn mul_spec(self, rhs: u8) -> Led {
        self.saturating_product(Led::splat(rhs))
    }
}

impl std::ops::MulAssign for Led {
    fn mul_assign(&mut self, rhs: Led)
        ensures
            *final(self) == old(self).saturating_product(rhs),
    {
        *self = *self * rhs;
    }
}

impl std::ops::MulAssign<u8> for Led {
    fn mul_assign(&mut self, rhs: u8)
        ensures
            *final(self) == old(self).saturating_product(Led::splat(rhs)),
    {
        *self = *self * rhs;
    }
}

impl std::ops::Div for Led {
    type Output = Led;

    /// Divides channel by channel, rounding down; a zero divisor gives 0 for its channel.
    fn div(self, rhs: Led) -> (led: Led) {
        Led {
            r: channel_div(self.r, rhs.r),
            g: channel_div(self.g, rhs.g),
            b: channel_div(self.b, rhs.b),
            w: channel_div(self.w, rhs.w),
        }
    }
}

impl vstd::std_specs::ops::DivSpecImpl for Led {
    open spec fn obeys_div_spec() -> bool {
        true
    }

    open spec fn div_req(self, rhs: Led) -> bool {
        true
    }

    open spec fn div_spec(self, rhs: Led) -> Led {
        self.quotient(rhs)
    }
}

impl std::ops::Div<u8> for Led {
    type Output = Led;

    /// The scalar goes to all four channels, then as for two LEDs.
    fn div(self, rhs: u8) -> (led: Led) {
        self / Led::from_rgbw(rhs, rhs, rhs, rhs)
    }
}

impl vstd::std_specs::ops::DivSpecImpl<u8> for Led {
    open spec fn obeys_div_spec() -> bool {
        true
    }

    open spec fn div_req(self, rhs: u8) -> bool {
        true
    }

    open spec fn div_spec(self, rhs: u8) -> Led {
        self.quotient(Led::splat(rhs))
    }
}

impl std::ops::DivAssign for Led {
    fn div_assign(&mut self, rhs: Led)
        ensures
            *final(self) == old(self).quotient(rhs),
    {
        *self = *self / rhs;
    }
}

impl std::ops::DivAssign<u8> for Led {
    fn div_assign(&mut self, rhs: u8)
        ensures
            *final(self) == old(self).quotient(Led::splat(rhs)),
    {
        *self = *self / rhs;
    }
}

} // verus!
