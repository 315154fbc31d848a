//! The miscellaneous control register: eight disjoint fields of one 16-bit word.

use vstd::prelude::*;

verus! {

/// Register value after power-up and after every restart.
pub const DEFAULT_VALUE: u16 = 0x00C1;

/// The bits of the register that the fields cover; every other bit is
/// reserved and is not represented.
pub const FIELD_MASK: u16 = 0x03DF;

/// Decoded miscellaneous control register.
#[derive(Copy, Clone, Debug, PartialEq, Eq, Hash, Structural)]
pub struct MscCtrl {
    pub burst32: Burst32,
    pub burst_sel: BurstSel,
    pub lac: LinearAccelerationCompensation,
    pub popa: PointOfPercussionAlignment,
    pub bw: SensorBandwidth,
    pub sync_mode: SyncMode,
    pub sync_pol: SyncPolarity,
    pub dr_pol: DataReadyPolarity,
}

/// Width of the data fields in a burst read: 16 bits when disabled, 32 bits when enabled (bit 9).
#[derive(Copy, Clone, Debug, PartialEq, Eq, Hash, Structural)]
pub enum Burst32 {
    Disabled,
    Enabled,
}

impl Burst32 {
    /// The field with its bit set (`Enabled`) or clear (`Disabled`).
    pub open spec fn of_flag(flag: bool) -> Self {
        if flag {
            Burst32::Enabled
        } else {
            Burst32::Disabled
        }
    }

    /// Whether the field has its bit set.
    pub open spec fn flag(self) -> bool {
        self == Burst32::Enabled
    }

    /// The field as a register value holds it.
    pub open spec fn of_word(data: u16) -> Self {
        Self::of_flag(data & 0x0200 != 0)
    }

    /// The bits that the field contributes to a register value.
    pub open spec fn word(self) -> u16 {
        if self.flag() {
            0x0200
        } else {
            0
        }
    }

    /// The field with its bit set (`Enabled`) or clear (`Disabled`).
    pub fn from_flag(flag: bool) -> (field: Self)
        ensures
            field == Self::of_flag(flag),
    {
        if flag {
            Burst32::Enabled
        } else {
            Burst32::Disabled
        }
    }

    /// Whether the field has its bit set.
    pub fn is_set(&self) -> (flag: bool)
        ensures
            flag == self.flag(),
    {
        match self {
            Burst32::Disabled => false,
            Burst32::Enabled => true,
        }
    }
}

impl From<u16> for Burst32 {
    fn from(data: u16) -> (field: Self) {
        Burst32::from_flag(data & 0x0200 != 0)
    }
}

impl vstd::std_specs::convert::FromSpecImpl<u16> for Burst32 {
    open spec fn obeys_from_spec() -> bool {
        true
    }

    open spec fn from_spec(data: u16) -> Self {
        Burst32::of_word(data)
    }
}

impl From<Burst32> for u16 {
    fn from(field: Burst32) -> (word: u16) {
        if field.is_set() {
            0x0200
        } else {
            0
        }
    }
}

impl vstd::std_specs::convert::FromSpecImpl<Burst32> for u16 {
    open spec fn obeys_from_spec() -> bool {
        true
    }

    open spec fn from_spec(field: Burst32) -> u16 {
        field.word()
    }
}

/// Content of a burst read: rates and accelerations, or delta angles and delta velocities (bit 8).
#[derive(Copy, Clone, Debug, PartialEq, Eq, Hash, Structural)]
pub enum BurstSel {
    Sel0,
    Sel1,
}

impl BurstSel {
    /// The field with its bit set (`Sel1`) or clear (`Sel0`).
    pub open spec fn of_flag(flag: bool) -> Self {
        if flag {
            BurstSel::Sel1
        } else {
            BurstSel::Sel0
        }
    }

    /// Whether the field has its bit set.
    pub open spec fn flag(self) -> bool {
        self == BurstSel::Sel1
    }

    /// The field as a register value holds it.
    pub open spec fn of_word(data: u16) -> Self {
        Self::of_flag(data & 0x0100 != 0)
    }

    /// The bits that the field contributes to a register value.
    pub open spec fn word(self) -> u16 {
        if self.flag() {
            0x0100
        } else {
            0
        }
    }

    /// The field with its bit set (`Sel1`) or clear (`Sel0`).
    pub fn from_flag(flag: bool) -> (field: Self)
        ensures
            field == Self::of_flag(flag),
    {
        if flag {
            BurstSel::Sel1
        } else {
            BurstSel::Sel0
        }
    }

    /// Whether the field has its bit set.
    pub fn is_set(&self) -> (flag: bool)
        ensures
            flag == self.flag(),
    {
        match self {
            BurstSel::Sel0 => false,
            BurstSel::Sel1 => true,
        }
    }
}

impl From<u16> for BurstSel {
    fn from(data: u16) -> (field: Self) {
        BurstSel::from_flag(data & 0x0100 != 0)
    }
}

impl vstd::std_specs::convert::FromSpecImpl<u16> for BurstSel {
    open spec fn obeys_from_spec() -> bool {
        true
    }

    open spec fn from_spec(data: u16) -> Self {
        BurstSel::of_word(data)
    }
}

impl From<BurstSel> for u16 {
    fn from(field: BurstSel) -> (word: u16) {
        if field.is_set() {
            0x0100
        } else {
            0
        }
    }
}

impl vstd::std_specs::convert::FromSpecImpl<BurstSel> for u16 {
    open spec fn obeys_from_spec() -> bool {
        true
    }

    open spec fn from_spec(field: BurstSel) -> u16 {
        field.word()
    }
}

/// Linear acceleration compensation of the gyroscopes (bit 7).
#[derive(Copy, Clone, Debug, PartialEq, Eq, Hash, Structural)]
pub enum LinearAccelerationCompensation {
    Disabled,
    Enabled,
}

impl LinearAccelerationCompensation {
    /// The field with its bit set (`Enabled`) or clear (`Disabled`).
    pub open spec fn of_flag(flag: bool) -> Self {
        if flag {
            LinearAccelerationCompensation::Enabled
        } else {
            LinearAccelerationCompensation::Disabled
        }
    }

    /// Whether the field has its bit set.
    pub open spec fn flag(self) -> bool {
        self == LinearAccelerationCompensation::Enabled
    }

    /// The field as a register value holds it.
    pub open spec fn of_word(data: u16) -> Self {
        Self::of_flag(data & 0x0080 != 0)
    }

    /// The bits that the field contributes to a register value.
    pub open spec fn word(self) -> u16 {
        if self.flag() {
            0x0080
        } else {
            0
        }
    }

    /// The field with its bit set (`Enabled`) or clear (`Disabled`).
    pub fn from_flag(flag: bool) -> (field: Self)
        ensures
            field == Self::of_flag(flag),
    {
        if flag {
            LinearAccelerationCompensation::Enabled
        } else {
            LinearAccelerationCompensation::Disabled
        }
    }

    /// Whether the field has its bit set.
    pub fn is_set(&self) -> (flag: bool)
        ensures
            flag == self.flag(),
    {
        match self {
            LinearAccelerationCompensation::Disabled => false,
            LinearAccelerationCompensation::Enabled => true,
        }
    }
}

impl From<u16> for LinearAccelerationCompensation {
    fn from(data: u16) -> (field: Self) {
        LinearAccelerationCompensation::from_flag(data & 0x0080 != 0)
    }
}

impl vstd::std_specs::convert::FromSpecImpl<u16> for LinearAccelerationCompensation {
    open spec fn obeys_from_spec() -> bool {
        true
    }

    open spec fn from_spec(data: u16) -> Self {
        LinearAccelerationCompensation::of_word(data)
    }
}

impl From<LinearAccelerationCompensation> for u16 {
    fn from(field: LinearAccelerationCompensation) -> (word: u16) {
        if field.is_set() {
            0x0080
        } else {
            0
        }
    }
}

impl vstd::std_specs::convert::FromSpecImpl<LinearAccelerationCompensation> for u16 {
    open spec fn obeys_from_spec() -> bool {
        true
    }

    open spec fn from_spec(field: LinearAccelerationCompensation) -> u16 {
        field.word()
    }
}

/// Point of percussion alignment of the accelerometers (bit 6).
#[derive(Copy, Clone, Debug, PartialEq, Eq, Hash, Structural)]
pub enum PointOfPercussionAlignment {
    Disabled,
    Enabled,
}

impl PointOfPercussionAlignment {
    /// The field with its bit set (`Enabled`) or clear (`Disabled`).
    pub open spec fn of_flag(flag: bool) -> Self {
        if flag {
            PointOfPercussionAlignment::Enabled
        } else {
            PointOfPercussionAlignment::Disabled
        }
    }

    /// Whether the field has its bit set.
    pub open spec fn flag(self) -> bool {
        self == PointOfPercussionAlignment::Enabled
    }

    /// The field as a register value holds it.
    pub open spec fn of_word(data: u16) -> Self {
        Self::of_flag(data & 0x0040 != 0)
    }

    /// The bits that the field contributes to a register value.
    pub open spec fn word(self) -> u16 {
        if self.flag() {
            0x0040
        } else {
            0
        }
    }

    /// The field with its bit set (`Enabled`) or clear (`Disabled`).
    pub fn from_flag(flag: bool) -> (field: Self)
        ensures
            field == Self::of_flag(flag),
    {
        if flag {
            PointOfPercussionAlignment::Enabled
        } else {
            PointOfPercussionAlignment::Disabled
        }
    }

    /// Whether the field has its bit set.
    pub fn is_set(&self) -> (flag: bool)
        ensures
            flag == self.flag(),
    {
        match self {
            PointOfPercussionAlignment::Disabled => false,
            PointOfPercussionAlignment::Enabled => true,
        }
    }
}

impl From<u16> for PointOfPercussionAlignment {
    fn from(data: u16) -> (field: Self) {
        PointOfPercussionAlignment::from_flag(data & 0x0040 != 0)
    }
}

impl vstd::std_specs::convert::FromSpecImpl<u16> for PointOfPercussionAlignment {
    open spec fn obeys_from_spec() -> bool {
        true
    }

    open spec fn from_spec(data: u16) -> Self {
        PointOfPercussionAlignment::of_word(data)
    }
}

impl From<PointOfPercussionAlignment> for u16 {
    fn from(field: PointOfPercussionAlignment) -> (word: u16) {
        if field.is_set() {
            0x0040
        } else {
            0
        }
    }
}

impl vstd::std_specs::convert::FromSpecImpl<PointOfPercussionAlignment> for u16 {
    open spec fn obeys_from_spec() -> bool {
        true
    }

    open spec fn from_spec(field: PointOfPercussionAlignment) -> u16 {
        field.word()
    }
}

/// Internal sensor bandwidth (bit 4).
#[derive(Copy, Clone, Debug, PartialEq, Eq, Hash, Structural)]
pub enum SensorBandwidth {
    Wide,
    Hz370,
}

impl SensorBandwidth {
    /// The field with its bit set (`Hz370`) or clear (`Wide`).
    pub open spec fn of_flag(flag: bool) -> Self {
        if flag {
            SensorBandwidth::Hz370
        } else {
            SensorBandwidth::Wide
        }
    }

    /// Whether the field has its bit set.
    pub open spec fn flag(self) -> bool {
        self == SensorBandwidth::Hz370
    }

    /// The field as a register value holds it.
    pub open spec fn of_word(data: u16) -> Self {
        Self::of_flag(data & 0x0010 != 0)
    }

    /// The bits that the field contributes to a register value.
    pub open spec fn word(self) -> u16 {
        if self.flag() {
            0x0010
        } else {
            0
        }
    }

    /// The field with its bit set (`Hz370`) or clear (`Wide`).
    pub fn from_flag(flag: bool) -> (field: Self)
        ensures
            field == Self::of_flag(flag),
    {
        if flag {
            SensorBandwidth::Hz370
        } else {
            SensorBandwidth::Wide
        }
    }

    /// Whether the field has its bit set.
    pub fn is_set(&self) -> (flag: bool)
        ensures
            flag == self.flag(),
    {
        match self {
            SensorBandwidth::Wide => false,
            SensorBandwidth::Hz370 => true,
        }
    }
}

impl From<u16> for SensorBandwidth {
    fn from(data: u16) -> (field: Self) {
        SensorBandwidth::from_flag(data & 0x0010 != 0)
    }
}

impl vstd::std_specs::convert::FromSpecImpl<u16> for SensorBandwidth {
    open spec fn obeys_from_spec() -> bool {
        true
    }

    open spec fn from_spec(data: u16) -> Self {
        SensorBandwidth::of_word(data)
    }
}

impl From<SensorBandwidth> for u16 {
    fn from(field: SensorBandwidth) -> (word: u16) {
        if field.is_set() {
            0x0010
        } else {
            0
        }
    }
}

impl vstd::std_specs::convert::FromSpecImpl<SensorBandwidth> for u16 {
    open spec fn obeys_from_spec() -> bool {
        true
    }

    open spec fn from_spec(field: SensorBandwidth) -> u16 {
        field.word()
    }
}

/// Active edge of the sync input (bit 1).
#[derive(Copy, Clone, Debug, PartialEq, Eq, Hash, Structural)]
pub enum SyncPolarity {
    FallingEdge,
    RisingEdge,
}

impl SyncPolarity {
    /// The field with its bit set (`RisingEdge`) or clear (`FallingEdge`).
    pub open spec fn of_flag(flag: bool) -> Self {
        if flag {
            SyncPolarity::RisingEdge
        } else {
            SyncPolarity::FallingEdge
        }
    }

    /// Whether the field has its bit set.
    pub open spec fn flag(self) -> bool {
        self == SyncPolarity::RisingEdge
    }

    /// The field as a register value holds it.
    pub open spec fn of_word(data: u16) -> Self {
        Self::of_flag(data & 0x0002 != 0)
    }

    /// The bits that the field contributes to a register value.
    pub open spec fn word(self) -> u16 {
        if self.flag() {
            0x0002
        } else {
            0
        }
    }

    /// The field with its bit set (`RisingEdge`) or clear (`FallingEdge`).
    pub fn from_flag(flag: bool) -> (field: Self)
        ensures
            field == Self::of_flag(flag),
    {
        if flag {
            SyncPolarity::RisingEdge
        } else {
            SyncPolarity::FallingEdge
        }
    }

    /// Whether the field has its bit set.
    pub fn is_set(&self) -> (flag: bool)
        ensures
            flag == self.flag(),
    {
        match self {
            SyncPolarity::FallingEdge => false,
            SyncPolarity::RisingEdge => true,
        }
    }
}

impl From<u16> for SyncPolarity {
    fn from(data: u16) -> (field: Self) {
        SyncPolarity::from_flag(data & 0x0002 != 0)
    }
}

impl vstd::std_specs::convert::FromSpecImpl<u16> for SyncPolarity {
    open spec fn obeys_from_spec() -> bool {
        true
    }

    open spec fn from_spec(data: u16) -> Self {
        SyncPolarity::of_word(data)
    }
}

impl From<SyncPolarity> for u16 {
    fn from(field: SyncPolarity) -> (word: u16) {
        if field.is_set() {
            0x0002
        } else {
            0
        }
    }
}

impl vstd::std_specs::convert::FromSpecImpl<SyncPolarity> for u16 {
    open spec fn obeys_from_spec() -> bool {
        true
    }

    open spec fn from_spec(field: SyncPolarity) -> u16 {
        field.word()
    }
}

/// Level of the data-ready output while data is ready (bit 0).
#[derive(Copy, Clone, Debug, PartialEq, Eq, Hash, Structural)]
pub enum DataReadyPolarity {
    ActiveLow,
    ActiveHigh,
}

impl DataReadyPolarity {
    /// The field with its bit set (`ActiveHigh`) or clear (`ActiveLow`).
    pub open spec fn of_flag(flag: bool) -> Self {
        if flag {
            DataReadyPolarity::ActiveHigh
        } else {
            DataReadyPolarity::ActiveLow
        }
    }

    /// Whether the field has its bit set.
    pub open spec fn flag(self) -> bool {
        self == DataReadyPolarity::ActiveHigh
    }

    /// The field as a register value holds it.
    pub open spec fn of_word(data: u16) -> Self {
        Self::of_flag(data & 0x0001 != 0)
    }

    /// The bits that the field contributes to a register value.
    pub open spec fn word(self) -> u16 {
        if self.flag() {
            0x0001
        } else {
            0
        }
    }

    /// The field with its bit set (`ActiveHigh`) or clear (`ActiveLow`).
    pub fn from_flag(flag: bool) -> (field: Self)
        ensures
            field == Self::of_flag(flag),
    {
        if flag {
            DataReadyPolarity::ActiveHigh
        } else {
            DataReadyPolarity::ActiveLow
        }
    }

    /// Whether the field has its bit set.
    pub fn is_set(&self) -> (flag: bool)
        ensures
            flag == self.flag(),
    {
        match self {
            DataReadyPolarity::ActiveLow => false,
            DataReadyPolarity::ActiveHigh => true,
        }
    }
}

impl From<u16> for DataReadyPolarity {
    fn from(data: u16) -> (field: Self) {
        DataReadyPolarity::from_flag(data & 0x0001 != 0)
    }
}

impl vstd::std_specs::convert::FromSpecImpl<u16> for DataReadyPolarity {
    open spec fn obeys_from_spec() -> bool {
        true
    }

    open spec fn from_spec(data: u16) -> Self {
        DataReadyPolarity::of_word(data)
    }
}

impl From<DataReadyPolarity> for u16 {
    fn from(field: DataReadyPolarity) -> (word: u16) {
        if field.is_set() {
            0x0001
        } else {
            0
        }
    }
}

impl vstd::std_specs::convert::FromSpecImpl<DataReadyPolarity> for u16 {
    open spec fn obeys_from_spec() -> bool {
        true
    }

    open spec fn from_spec(field: DataReadyPolarity) -> u16 {
        field.word()
    }
}

/// Source of the sample clock (bits 3 and 2).
#[derive(Copy, Clone, Debug, PartialEq, Eq, Hash, Structural)]
pub enum SyncMode {
    Internal,
    DirectInput,
    ScaledInput,
    Output,
}

impl SyncMode {
    /// The field as a register value holds it.
    pub open spec fn of_word(data: u16) -> Self {
        let mode = (data >> 2) & 3;
        if mode == 0 {
            SyncMode::Internal
        } else if mode == 1 {
            SyncMode::DirectInput
        } else if mode == 2 {
            SyncMode::ScaledInput
        } else {
            SyncMode::Output
        }
    }

    /// The bits that the field contributes to a register value.
    pub open spec fn word(self) -> u16 {
        match self {
            SyncMode::Internal => 0x0000,
            SyncMode::DirectInput => 0x0004,
            SyncMode::ScaledInput => 0x0008,
            SyncMode::Output => 0x000C,
        }
    }
}

impl From<u16> for SyncMode {
    fn from(data: u16) -> (field: Self) {
        let mode: u16 = (data >> 2) & 3;
        if mode == 0 {
            SyncMode::Internal
        } else if mode == 1 {
            SyncMode::DirectInput
        } else if mode == 2 {
            SyncMode::ScaledInput
        } else {
            SyncMode::Output
        }
    }
}

impl vstd::std_specs::convert::FromSpecImpl<u16> for SyncMode {
    open spec fn obeys_from_spec() -> bool {
        true
    }

    open spec fn from_spec(data: u16) -> Self {
        SyncMode::of_word(data)
    }
}

impl From<SyncMode> for u16 {
    fn from(field: SyncMode) -> (word: u16) {
        match field {
            SyncMode::Internal => 0x0000,
            SyncMode::DirectInput => 0x0004,
            SyncMode::ScaledInput => 0x0008,
            SyncMode::Output => 0x000C,
        }
    }
}

impl vstd::std_specs::convert::FromSpecImpl<SyncMode> for u16 {
    open spec fn obeys_from_spec() -> bool {
        true
    }

    open spec fn from_spec(field: SyncMode) -> u16 {
        field.word()
    }
}

impl From<u16> for MscCtrl {
    /// Reads every field from its own bits of the register value.
    fn from(data: u16) -> (ctrl: Self) {
        MscCtrl {
            burst32: Burst32::from(data),
            burst_sel: BurstSel::from(data),
            lac: LinearAccelerationCompensation::from(data),
            popa: PointOfPercussionAlignment::from(data),
            bw: SensorBandwidth::from(data),
            sync_mode: SyncMode::from(data),
            sync_pol: SyncPolarity::from(data),
            dr_pol: DataReadyPolarity::from(data),
        }
    }
}

impl vstd::std_specs::convert::FromSpecImpl<u16> for MscCtrl {
    open spec fn obeys_from_spec() -> bool {
        true
    }

    open spec fn from_spec(data: u16) -> Self {
        MscCtrl::decoded(data)
    }
}

impl From<MscCtrl> for u16 {
    /// Merges the bits of every field into one register value; reserved
    /// bits are zero.
    fn from(ctrl: MscCtrl) -> (word: u16) {
        let burst32: u16 = u16::from(ctrl.burst32);
        let burst_sel: u16 = u16::from(ctrl.burst_sel);
        let lac: u16 = u16::from(ctrl.lac);
        let popa: u16 = u16::from(ctrl.popa);
        let bw: u16 = u16::from(ctrl.bw);
        let sync_mode: u16 = u16::from(ctrl.sync_mode);
        let sync_pol: u16 = u16::from(ctrl.sync_pol);
        let dr_pol: u16 = u16::from(ctrl.dr_pol);
        burst32 | burst_sel | lac | popa | bw | sync_mode | sync_pol | dr_pol
    }
}

impl vstd::std_specs::convert::FromSpecImpl<MscCtrl> for u16 {
    open spec fn obeys_from_spec() -> bool {
        true
    }

    open spec fn from_spec(ctrl: MscCtrl) -> u16 {
        ctrl.encoded()
    }
}

impl MscCtrl {
    /// The register value that encodes `self`.
    pub open spec fn encoded(self) -> u16 {
        self.burst32.word() | self.burst_sel.word() | self.lac.word() | self.popa.word()
            | self.bw.word() | self.sync_mode.word() | self.sync_pol.word() | self.dr_pol.word()
    }

    /// The fields that a register value decodes to.
    pub open spec fn decoded(data: u16) -> MscCtrl {
        MscCtrl {
            burst32: Burst32::of_word(data),
            burst_sel: BurstSel::of_word(data),
            lac: LinearAccelerationCompensation::of_word(data),
            popa: PointOfPercussionAlignment::of_word(data),
            bw: SensorBandwidth::of_word(data),
            sync_mode: SyncMode::of_word(data),
            sync_pol: SyncPolarity::of_word(data),
            dr_pol: DataReadyPolarity::of_word(data),
        }
    }

    /// The value that the sensor holds after power-up.
    pub open spec fn power_on() -> MscCtrl {
        MscCtrl {
            burst32: Burst32::Disabled,
            burst_sel: BurstSel::Sel0,
            lac: LinearAccelerationCompensation::Enabled,
            popa: PointOfPercussionAlignment::Enabled,
            bw: SensorBandwidth::Wide,
            sync_mode: SyncMode::Internal,
            sync_pol: SyncPolarity::FallingEdge,
            dr_pol: DataReadyPolarity::ActiveHigh,
        }
    }
}

impl Default for MscCtrl {
    /// The decoded power-up value of the register.
    fn default() -> (ctrl: Self)
        ensures
            ctrl == MscCtrl::decoded(DEFAULT_VALUE),
            ctrl == MscCtrl::power_on(),
    {
        proof {
            lemma_default_fields();
        }
        MscCtrl::from(DEFAULT_VALUE)
    }
}

/// The power-up register value decodes to the power-up fields.
pub proof fn lemma_default_fields()
    ensures
        MscCtrl::decoded(DEFAULT_VALUE) == MscCtrl::power_on(),
        MscCtrl::power_on().encoded() == DEFAULT_VALUE,
{
    let d: u16 = 0x00C1;
    assert(d & 0x0200 == 0 && d & 0x0100 == 0 && d & 0x0080 != 0 && d & 0x0040 != 0 && d & 0x0010
        == 0 && (d >> 2) & 3 == 0 && d & 0x0002 == 0 && d & 0x0001 != 0) by (bit_vector)
        requires
            d == 0x00C1,
    ;
    assert(0u16 | 0u16 | 0x0080u16 | 0x0040u16 | 0u16 | 0u16 | 0u16 | 0x0001u16 == 0x00C1u16)
        by (bit_vector);
}

/// Encoding a control value and decoding the result gives the value back,
/// whatever the fields hold.
pub proof fn lemma_decode_encode(ctrl: MscCtrl)
    ensures
        MscCtrl::decoded(ctrl.encoded()) == ctrl,
{
    let w9 = ctrl.burst32.word();
    let w8 = ctrl.burst_sel.word();
    let w7 = ctrl.lac.word();
    let w6 = ctrl.popa.word();
    let w4 = ctrl.bw.word();
    let wm = ctrl.sync_mode.word();
    let w1 = ctrl.sync_pol.word();
    let w0 = ctrl.dr_pol.word();
    let t = w9 | w8 | w7 | w6 | w4 | wm | w1 | w0;
    assert(t == ctrl.encoded());
    assert({
        &&& (t & 0x0200 != 0) == (w9 != 0)
        &&& (t & 0x0100 != 0) == (w8 != 0)
        &&& (t & 0x0080 != 0) == (w7 != 0)
        &&& (t & 0x0040 != 0) == (w6 != 0)
        &&& (t & 0x0010 != 0) == (w4 != 0)
        &&& ((t >> 2) & 3) * 4 == wm
        &&& (t & 0x0002 != 0) == (w1 != 0)
        &&& (t & 0x0001 != 0) == (w0 != 0)
    }) by (bit_vector)
        requires
            t == w9 | w8 | w7 | w6 | w4 | wm | w1 | w0,
            w9 == 0 || w9 == 0x0200,
            w8 == 0 || w8 == 0x0100,
            w7 == 0 || w7 == 0x0080,
            w6 == 0 || w6 == 0x0040,
            w4 == 0 || w4 == 0x0010,
            wm == 0 || wm == 4 || wm == 8 || wm == 12,
            w1 == 0 || w1 == 0x0002,
            w0 == 0 || w0 == 0x0001,
    ;
}

/// Decoding a register value and encoding the result keeps exactly the bits
/// that the fields cover and clears the reserved ones.
pub proof fn lemma_encode_decode(data: u16)
    ensures
        MscCtrl::decoded(data).encoded() == data & FIELD_MASK,
{
    let ctrl = MscCtrl::decoded(data);
    let w9 = ctrl.burst32.word();
    let w8 = ctrl.burst_sel.word();
    let w7 = ctrl.lac.word();
    let w6 = ctrl.popa.word();
    let w4 = ctrl.bw.word();
    let wm = ctrl.sync_mode.word();
    let w1 = ctrl.sync_pol.word();
    let w0 = ctrl.dr_pol.word();
    let m = (data >> 2) & 3;
    assert(m == 0 || m == 1 || m == 2 || m == 3) by (bit_vector)
        requires
            m == (data >> 2) & 3,
    ;
    assert(wm == m * 4);
    assert(w9 | w8 | w7 | w6 | w4 | wm | w1 | w0 == data & 0x03DF) by (bit_vector)
        requires
            w9 == (if data & 0x0200 != 0 { 0x0200u16 } else { 0u16 }),
            w8 == (if data & 0x0100 != 0 { 0x0100u16 } else { 0u16 }),
            w7 == (if data & 0x0080 != 0 { 0x0080u16 } else { 0u16 }),
            w6 == (if data & 0x0040 != 0 { 0x0040u16 } else { 0u16 }),
            w4 == (if data & 0x0010 != 0 { 0x0010u16 } else { 0u16 }),
            wm == ((data >> 2) & 3) * 4,
            w1 == (if data & 0x0002 != 0 { 0x0002u16 } else { 0u16 }),
            w0 == (if data & 0x0001 != 0 { 0x0001u16 } else { 0u16 }),
    ;
}

} // verus!
