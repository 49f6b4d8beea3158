//! The binding generator and entry point: one validated descriptor is
//! expanded, uniformly for every device, into the typed peripheral set —
//! pins in their reset state, unclaimed timers, an erased EEPROM and the
//! ADC unit.
//!
//! Generation is data-driven: the same expansion applies to any
//! descriptor, and all variance comes from the descriptor itself. A
//! malformed descriptor fails here, before any peripheral object exists.
//!
//! The running program is meant to acquire exactly one [`Device`] at
//! start-up and destructure it once; the singleton discipline at the
//! program boundary is the caller's, while every resource inside is
//! uniquely owned by construction (pin, timer and peripheral values are
//! neither copyable nor clonable).

use vstd::prelude::*;
use crate::adc::{Adc, ReferenceVoltage, spec_ref_bits, MUX_CODES};
use crate::descriptor::{
    AdcChannel, DeviceDescriptor, DescriptorError, PinId, PortDesc, spec_adc_wf, spec_eeprom_wf,
    spec_ports_wf, spec_spi_wf, spec_timers_wf,
};
use crate::eeprom::{Eeprom, ERASED_BYTE};
use crate::pin::{Input, Pin};
use crate::pwm::TimerUnit;

verus! {

/// The pin identities of one port, in bit order.
pub open spec fn spec_port_pin_ids(p: PortDesc) -> Seq<PinId> {
    p.bits@.map_values(|b: u8| PinId { port: p.id, bit: b })
}

/// The pin identities of a whole layout, port by port.
pub open spec fn spec_layout_pin_ids(ports: Seq<PortDesc>) -> Seq<PinId>
    decreases ports.len(),
{
    if ports.len() == 0 {
        Seq::empty()
    } else {
        spec_layout_pin_ids(ports.drop_last()) + spec_port_pin_ids(ports.last())
    }
}

/// Extending a layout prefix by one port appends that port's pin
/// identities.
proof fn lemma_layout_pin_ids_step(ports: Seq<PortDesc>, i: int)
    requires
        0 <= i < ports.len(),
    ensures
        spec_layout_pin_ids(ports.take(i + 1)) == spec_layout_pin_ids(ports.take(i))
            + spec_port_pin_ids(ports[i]),
{
    let s = ports.take(i + 1);
    assert(s.drop_last() =~= ports.take(i));
    assert(s.last() == ports[i]);
}

/// The typed peripheral set of one device, generated from its
/// descriptor.
#[derive(Debug)]
pub struct Device {
    pub pins: Vec<Pin<Input>>,
    pub timers: Vec<TimerUnit>,
    pub eeprom: Eeprom,
    pub adc: Adc,
    pub adc_channels: Vec<AdcChannel>,
}

impl Device {
    /// Expands `desc` into the device's peripheral set.
    ///
    /// Succeeds exactly on a well-formed descriptor; a malformed one is
    /// reported with the first rule it breaks, exactly as
    /// [`DeviceDescriptor::validate`] reports it. On success: one
    /// floating, low input pin per layout entry in port order; one
    /// unclaimed timer per descriptor entry with its bindings; the
    /// EEPROM fully erased; the ADC referenced to the supply voltage
    /// with every input level at ground.
    #[verifier::loop_isolation(false)]
    pub fn acquire(desc: DeviceDescriptor) -> (r: Result<Device, DescriptorError>)
        ensures
            r is Ok <==> desc.spec_valid(),
            r == Err::<Device, DescriptorError>(DescriptorError::InvalidPorts) <==> !spec_ports_wf(
                desc.ports@,
            ),
            r == Err::<Device, DescriptorError>(DescriptorError::InvalidEeprom) <==> (
            spec_ports_wf(desc.ports@) && !spec_eeprom_wf(desc.eeprom)),
            r == Err::<Device, DescriptorError>(DescriptorError::InvalidPwm) <==> (spec_ports_wf(
                desc.ports@,
            ) && spec_eeprom_wf(desc.eeprom) && !spec_timers_wf(desc.timers@, desc.ports@)),
            r == Err::<Device, DescriptorError>(DescriptorError::InvalidAdc) <==> (spec_ports_wf(
                desc.ports@,
            ) && spec_eeprom_wf(desc.eeprom) && spec_timers_wf(desc.timers@, desc.ports@)
                && !spec_adc_wf(desc.adc@, desc.ports@)),
            r == Err::<Device, DescriptorError>(DescriptorError::InvalidSpi) <==> (spec_ports_wf(
                desc.ports@,
            ) && spec_eeprom_wf(desc.eeprom) && spec_timers_wf(desc.timers@, desc.ports@)
                && spec_adc_wf(desc.adc@, desc.ports@) && !spec_spi_wf(desc.spi, desc.ports@)),
            r matches Ok(d) ==> {
                &&& d.pins@.len() == spec_layout_pin_ids(desc.ports@).len()
                &&& forall|k: int|
                    0 <= k < d.pins@.len() ==> (#[trigger] d.pins@[k]).id == spec_layout_pin_ids(
                        desc.ports@,
                    )[k]
                &&& forall|k: int|
                    0 <= k < d.pins@.len() ==> !(#[trigger] d.pins@[k]).ddr && !d.pins@[k].out
                        && !d.pins@[k].level
                &&& d.timers@.len() == desc.timers@.len()
                &&& forall|i: int|
                    0 <= i < d.timers@.len() ==> (#[trigger] d.timers@[i]).family
                        == desc.timers@[i].family && d.timers@[i].channels
                        == desc.timers@[i].channels
                &&& d.eeprom.spec_wf()
                &&& d.eeprom.capacity == desc.eeprom.capacity
                &&& d.eeprom.addr_width == desc.eeprom.addr_width
                &&& forall|a: int|
                    0 <= a < desc.eeprom.capacity ==> #[trigger] d.eeprom.cells@[a] == ERASED_BYTE
                &&& d.adc_channels == desc.adc
                &&& d.adc.spec_wf()
                &&& d.adc.admux == spec_ref_bits(ReferenceVoltage::AVcc)
                &&& d.adc.didr0 == 0
                &&& forall|m: int| 0 <= m < MUX_CODES ==> #[trigger] d.adc.inputs@[m] == 0
            },
    {
        if let Err(e) = desc.validate() {
            return Err(e);
        }
        let DeviceDescriptor { ports, timers: timer_descs, eeprom: eeprom_desc, adc, spi: _ } =
            desc;
        let mut pins: Vec<Pin<Input>> = Vec::new();
        let mut i: usize = 0;
        while i < ports.len()
            invariant
                0 <= i <= ports.len(),
                pins@.len() == spec_layout_pin_ids(ports@.take(i as int)).len(),
                forall|k: int|
                    0 <= k < pins@.len() ==> (#[trigger] pins@[k]).id == spec_layout_pin_ids(
                        ports@.take(i as int),
                    )[k],
                forall|k: int|
                    0 <= k < pins@.len() ==> !(#[trigger] pins@[k]).ddr && !pins@[k].out
                        && !pins@[k].level,
            decreases ports.len() - i,
        {
            let port_id = ports[i].id;
            let ghost prefix = spec_layout_pin_ids(ports@.take(i as int));
            let mut j: usize = 0;
            while j < ports[i].bits.len()
                invariant
                    0 <= j <= ports@[i as int].bits@.len(),
                    pins@.len() == prefix.len() + j,
                    forall|k: int|
                        0 <= k < prefix.len() ==> (#[trigger] pins@[k]).id == prefix[k],
                    forall|k: int|
                        0 <= k < j ==> (#[trigger] pins@[prefix.len() + k]).id == (PinId {
                            port: ports@[i as int].id,
                            bit: ports@[i as int].bits@[k],
                        }),
                    forall|k: int|
                        0 <= k < pins@.len() ==> !(#[trigger] pins@[k]).ddr && !pins@[k].out
                            && !pins@[k].level,
                decreases ports@[i as int].bits@.len() - j,
            {
                let bit = ports[i].bits[j];
                pins.push(Pin::new_floating(PinId { port: port_id, bit }, false));
                j += 1;
            }
            proof {
                lemma_layout_pin_ids_step(ports@, i as int);
                let p = ports@[i as int];
                let full = spec_layout_pin_ids(ports@.take(i as int + 1));
                assert(spec_port_pin_ids(p).len() == p.bits@.len());
                assert(full.len() == prefix.len() + p.bits@.len());
                assert forall|k: int| 0 <= k < pins@.len() implies (#[trigger] pins@[k]).id
                    == full[k] by {
                    if k < prefix.len() {
                        assert(full[k] == prefix[k]);
                    } else {
                        let k2 = k - prefix.len();
                        assert(full[k] == spec_port_pin_ids(p)[k2]);
                        assert(spec_port_pin_ids(p)[k2] == (PinId { port: p.id, bit: p.bits@[k2] }));
                        assert(pins@[prefix.len() + k2].id == (PinId {
                            port: p.id,
                            bit: p.bits@[k2],
                        }));
                    }
                }
            }
            i += 1;
        }
        proof {
            assert(ports@.take(ports@.len() as int) =~= ports@);
        }
        let mut timers: Vec<TimerUnit> = Vec::new();
        let mut t: usize = 0;
        let n_timers = timer_descs.len();
        let mut timer_descs = timer_descs;
        while t < n_timers
            invariant
                0 <= t <= n_timers,
                timer_descs@.len() == n_timers - t,
                timers@.len() == t,
                forall|i2: int|
                    0 <= i2 < t ==> (#[trigger] timers@[i2]).family == desc.timers@[i2].family
                        && timers@[i2].channels == desc.timers@[i2].channels,
                forall|i2: int|
                    0 <= i2 < timer_descs@.len() ==> (#[trigger] timer_descs@[i2]).family
                        == desc.timers@[t + i2].family && timer_descs@[i2].channels
                        == desc.timers@[t + i2].channels,
            decreases n_timers - t,
        {
            let td = timer_descs.remove(0);
            timers.push(TimerUnit { family: td.family, channels: td.channels });
            t += 1;
        }
        let eeprom = Eeprom::new(eeprom_desc);
        let mut inputs: Vec<u16> = Vec::new();
        let mut m: usize = 0;
        while m < 16
            invariant
                0 <= m <= 16,
                inputs@.len() == m,
                forall|m2: int| 0 <= m2 < m ==> #[trigger] inputs@[m2] == 0,
            decreases 16 - m,
        {
            inputs.push(0);
            m += 1;
        }
        Ok(Device {
            pins,
            timers,
            eeprom,
            adc: Adc::new(ReferenceVoltage::AVcc, inputs),
            adc_channels: adc,
        })
    }
}

} // verus!
