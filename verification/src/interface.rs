use vstd::pervasive::unreached;
use vstd::prelude::*;

verus! {

/// How long each edge of the hardware reset pulse is held, in milliseconds.
pub const RESET_DELAY_MS: u32 = 10;

/// A source of blocking delays, supplied by the platform.
///
/// No contract is attached: how long the platform actually waits is outside
/// the scope of this model.
pub trait Delay {
    /// Block for at least `ms` milliseconds.
    fn delay_ms(&mut self, ms: u32);
}

/// A delay source that does not wait, for host-side simulation.
pub struct NoDelay;

impl Delay for NoDelay {
    fn delay_ms(&mut self, _ms: u32) {
    }
}

/// The bytes `[s.take(at)] + data + [s.skip(at + data.len())]`: `s` with the
/// range starting at `at` overwritten by `data`.
pub open spec fn overwrite(s: Seq<u8>, at: int, data: Seq<u8>) -> Seq<u8> {
    s.take(at) + data + s.skip(at + data.len() as int)
}

/// The opcode that starts a plane transmission: write-black for layer 0,
/// write-red for any other layer.
pub open spec fn epd_layer_opcode(layer: u8) -> u8 {
    if layer == 0 {
        0x10
    } else {
        0x13
    }
}

/// The capability a display controller is driven through.
///
/// `log()` models the byte stream the controller has observed so far: each
/// command opcode followed by the data bytes of that command. `sram()` models
/// the contents of the optional external memory chip that shares the bus.
/// A transport failure aborts the operation and is propagated verbatim; after
/// an `Err` nothing is promised about the stream.
pub trait DisplayInterface: Sized {
    type Error;

    /// The bytes the display controller has observed so far.
    spec fn log(&self) -> Seq<u8>;

    /// The modelled contents of the external memory chip.
    spec fn sram(&self) -> Seq<u8>;

    /// Whether plane data can be supplied from host memory.
    spec fn supports_host_buffer(&self) -> bool;

    /// Whether the external-memory operations are available.
    spec fn supports_sram(&self) -> bool;

    /// Whether reads from the external memory return exactly what the model
    /// holds. True for the in-memory simulator; false when the bytes come
    /// back from a physical device outside the proof.
    spec fn obeys_sram_model(&self) -> bool;

    /// Send a one-byte command opcode to the controller.
    fn send_command(&mut self, command: u8) -> (r: Result<(), Self::Error>)
        ensures
            final(self).supports_host_buffer() == old(self).supports_host_buffer(),
            final(self).supports_sram() == old(self).supports_sram(),
            final(self).obeys_sram_model() == old(self).obeys_sram_model(),
            final(self).sram() == old(self).sram(),
            r is Ok ==> final(self).log() == old(self).log().push(command),
    ;

    /// Send argument or plane bytes for the command sent last.
    fn send_data(&mut self, data: &[u8]) -> (r: Result<(), Self::Error>)
        ensures
            final(self).supports_host_buffer() == old(self).supports_host_buffer(),
            final(self).supports_sram() == old(self).supports_sram(),
            final(self).obeys_sram_model() == old(self).obeys_sram_model(),
            final(self).sram() == old(self).sram(),
            r is Ok ==> final(self).log() == old(self).log() + data@,
    ;

    /// Pulse the hardware reset line. No bytes reach the controller.
    fn reset<D: Delay>(&mut self, delay: &mut D)
        ensures
            final(self).supports_host_buffer() == old(self).supports_host_buffer(),
            final(self).supports_sram() == old(self).supports_sram(),
            final(self).obeys_sram_model() == old(self).obeys_sram_model(),
            final(self).sram() == old(self).sram(),
            final(self).log() == old(self).log(),
    ;

    /// Block until the controller deasserts its busy line. The wait is
    /// unbounded by design: the line is polled, never timed.
    fn busy_wait(&self);

    /// Transmit one full plane from a host-memory buffer: the layer's write
    /// opcode followed by the buffer bytes.
    fn epd_update_data(&mut self, layer: u8, nbytes: u16, buf: &[u8]) -> (r: Result<
        (),
        Self::Error,
    >)
        requires
            old(self).supports_host_buffer(),
            nbytes as int == buf@.len(),
        ensures
            final(self).supports_host_buffer() == old(self).supports_host_buffer(),
            final(self).supports_sram() == old(self).supports_sram(),
            final(self).obeys_sram_model() == old(self).obeys_sram_model(),
            final(self).sram() == old(self).sram(),
            r is Ok ==> final(self).log() == old(self).log() + seq![epd_layer_opcode(layer)]
                + buf@,
    ;

    /// Read `n` bytes of external memory starting at `address`.
    fn sram_read(&mut self, address: u16, n: u16) -> (r: Result<Vec<u8>, Self::Error>)
        requires
            old(self).supports_sram(),
            address as int + n as int <= old(self).sram().len(),
        ensures
            final(self).supports_host_buffer() == old(self).supports_host_buffer(),
            final(self).supports_sram() == old(self).supports_sram(),
            final(self).obeys_sram_model() == old(self).obeys_sram_model(),
            final(self).sram() == old(self).sram(),
            final(self).log() == old(self).log(),
            r matches Ok(bytes) ==> bytes@.len() == n as int,
            r matches Ok(bytes) ==> (old(self).obeys_sram_model() ==> bytes@ == old(
                self,
            ).sram().subrange(address as int, address as int + n as int)),
    ;

    /// Write `data` into external memory starting at `address`.
    fn sram_write(&mut self, address: u16, data: &[u8]) -> (r: Result<(), Self::Error>)
        requires
            old(self).supports_sram(),
            address as int + data@.len() <= old(self).sram().len(),
        ensures
            final(self).supports_host_buffer() == old(self).supports_host_buffer(),
            final(self).supports_sram() == old(self).supports_sram(),
            final(self).obeys_sram_model() == old(self).obeys_sram_model(),
            final(self).sram().len() == old(self).sram().len(),
            final(self).log() == old(self).log(),
            r is Ok ==> final(self).sram() == overwrite(old(self).sram(), address as int, data@),
    ;

    /// Fill `nbytes` bytes of external memory starting at `address` with `val`.
    fn sram_clear(&mut self, address: u16, nbytes: u16, val: u8) -> (r: Result<(), Self::Error>)
        requires
            old(self).supports_sram(),
            address as int + nbytes as int <= old(self).sram().len(),
        ensures
            final(self).supports_host_buffer() == old(self).supports_host_buffer(),
            final(self).supports_sram() == old(self).supports_sram(),
            final(self).obeys_sram_model() == old(self).obeys_sram_model(),
            final(self).sram().len() == old(self).sram().len(),
            final(self).log() == old(self).log(),
            r is Ok ==> final(self).sram() == overwrite(
                old(self).sram(),
                address as int,
                Seq::new(nbytes as nat, |i: int| val),
            ),
    ;

    /// Stream one full plane from external memory into the controller: the
    /// layer's write opcode followed by `nbytes` bytes taken from memory
    /// starting at `start_address`, without staging them in host memory.
    fn sram_epd_update_data(&mut self, layer: u8, nbytes: u16, start_address: u16) -> (r: Result<
        (),
        Self::Error,
    >)
        requires
            old(self).supports_sram(),
            start_address as int + nbytes as int <= old(self).sram().len(),
        ensures
            final(self).supports_host_buffer() == old(self).supports_host_buffer(),
            final(self).supports_sram() == old(self).supports_sram(),
            final(self).obeys_sram_model() == old(self).obeys_sram_model(),
            final(self).sram() == old(self).sram(),
            r is Ok ==> final(self).log().len() == old(self).log().len() + 1 + nbytes as int,
            r is Ok ==> old(self).log().is_prefix_of(final(self).log()),
            r is Ok ==> final(self).log()[old(self).log().len() as int] == epd_layer_opcode(layer),
            r is Ok && old(self).obeys_sram_model() ==> final(self).log() == old(self).log()
                + seq![epd_layer_opcode(layer)] + old(self).sram().subrange(
                start_address as int,
                start_address as int + nbytes as int,
            ),
    ;
}

/// An output pin the driver can drive low or high. Pin faults are absorbed
/// by the platform implementation; the driver's model only follows the
/// commanded level.
pub trait OutPin {
    /// Whether the pin is driven low.
    spec fn pin_low(&self) -> bool;

    fn set_low(&mut self)
        ensures
            final(self).pin_low(),
    ;

    fn set_high(&mut self)
        ensures
            !final(self).pin_low(),
    ;
}

/// An input pin the driver can sample.
pub trait InPin {
    /// Sample the line. The value is driven by the device, so nothing is
    /// promised about it.
    fn is_high(&self) -> bool;

    /// Block until the line is low. The busy line is polled without a
    /// timeout, so the unbounded wait lives with the pin capability rather
    /// than in the driver.
    fn wait_while_high(&self);
}

/// A write-only SPI bus. `mosi()` is every byte clocked out so far.
pub trait SpiWrite {
    type Error;

    /// The bytes clocked out on the bus so far.
    spec fn mosi(&self) -> Seq<u8>;

    /// Clock out `data`. After a failure nothing is promised about how much
    /// of it left the host.
    fn write(&mut self, data: &[u8]) -> (r: Result<(), Self::Error>)
        ensures
            r is Ok ==> final(self).mosi() == old(self).mosi() + data@,
    ;
}

/// A full-duplex SPI bus clocked one byte at a time.
pub trait SpiDuplex {
    type Error;

    /// The bytes clocked out on the bus so far.
    spec fn mosi(&self) -> Seq<u8>;

    /// Clock one byte out (and one byte in, to be fetched with `read`).
    fn send(&mut self, byte: u8) -> (r: Result<(), Self::Error>)
        ensures
            r is Ok ==> final(self).mosi() == old(self).mosi().push(byte),
    ;

    /// The byte the device shifted back during the last send; its value is
    /// the device's to choose.
    fn read(&mut self) -> (r: Result<u8, Self::Error>)
        ensures
            final(self).mosi() == old(self).mosi(),
    ;
}

/// An output pin as the platform hands it over: the two level commands and
/// nothing else. A platform implements this; [`TrackedOutPin`] lifts it to
/// the contracted [`OutPin`] capability.
pub trait RawOutPin {
    fn set_low(&mut self);

    fn set_high(&mut self);
}

/// A write-only SPI bus as the platform hands it over; [`TrackedSpiWrite`]
/// lifts it to the contracted [`SpiWrite`] capability.
pub trait RawSpiWrite {
    type Error;

    fn write(&mut self, data: &[u8]) -> Result<(), Self::Error>;
}

/// A full-duplex SPI bus as the platform hands it over;
/// [`TrackedSpiDuplex`] lifts it to the contracted [`SpiDuplex`] capability.
pub trait RawSpiDuplex {
    type Error;

    fn send(&mut self, byte: u8) -> Result<(), Self::Error>;

    fn read(&mut self) -> Result<u8, Self::Error>;
}

/// A platform pin together with the level last commanded, which is what the
/// driver's pin model follows.
pub struct TrackedOutPin<P> {
    pub pin: P,
    pub low: bool,
}

impl<P: RawOutPin> TrackedOutPin<P> {
    /// Track a platform pin, taking the level it currently holds.
    pub fn new(pin: P, low: bool) -> (r: TrackedOutPin<P>)
        ensures
            r.pin == pin,
            r.low == low,
    {
        TrackedOutPin { pin, low }
    }
}

impl<P: RawOutPin> OutPin for TrackedOutPin<P> {
    open spec fn pin_low(&self) -> bool {
        self.low
    }

    fn set_low(&mut self) {
        self.pin.set_low();
        self.low = true;
    }

    fn set_high(&mut self) {
        self.pin.set_high();
        self.low = false;
    }
}

/// A platform bus together with the bytes clocked out so far, carried as
/// ghost state beside it.
pub struct TrackedSpiWrite<S> {
    pub bus: S,
    pub sent: Ghost<Seq<u8>>,
}

impl<S: RawSpiWrite> TrackedSpiWrite<S> {
    /// Track a platform bus from an empty stream.
    pub fn new(bus: S) -> (r: TrackedSpiWrite<S>)
        ensures
            r.bus == bus,
            r.sent@ == Seq::<u8>::empty(),
    {
        TrackedSpiWrite { bus, sent: Ghost(Seq::empty()) }
    }
}

impl<S: RawSpiWrite> SpiWrite for TrackedSpiWrite<S> {
    type Error = S::Error;

    open spec fn mosi(&self) -> Seq<u8> {
        self.sent@
    }

    fn write(&mut self, data: &[u8]) -> (r: Result<(), S::Error>) {
        self.bus.write(data)?;
        self.sent = Ghost(self.sent@ + data@);
        Ok(())
    }
}

/// A platform full-duplex bus together with the bytes clocked out so far,
/// carried as ghost state beside it.
pub struct TrackedSpiDuplex<S> {
    pub bus: S,
    pub sent: Ghost<Seq<u8>>,
}

impl<S: RawSpiDuplex> TrackedSpiDuplex<S> {
    /// Track a platform bus from an empty stream.
    pub fn new(bus: S) -> (r: TrackedSpiDuplex<S>)
        ensures
            r.bus == bus,
            r.sent@ == Seq::<u8>::empty(),
    {
        TrackedSpiDuplex { bus, sent: Ghost(Seq::empty()) }
    }
}

impl<S: RawSpiDuplex> SpiDuplex for TrackedSpiDuplex<S> {
    type Error = S::Error;

    open spec fn mosi(&self) -> Seq<u8> {
        self.sent@
    }

    fn send(&mut self, byte: u8) -> (r: Result<(), S::Error>) {
        self.bus.send(byte)?;
        self.sent = Ghost(self.sent@.push(byte));
        Ok(())
    }

    fn read(&mut self) -> (r: Result<u8, S::Error>) {
        self.bus.read()
    }
}

/// An output pin with no hardware behind it, for host-side simulation.
pub struct SimPin {
    pub low: bool,
}

impl OutPin for SimPin {
    open spec fn pin_low(&self) -> bool {
        self.low
    }

    fn set_low(&mut self) {
        self.low = true;
    }

    fn set_high(&mut self) {
        self.low = false;
    }
}

/// An input pin that always reads idle, for host-side simulation.
pub struct SimBusyPin;

impl InPin for SimBusyPin {
    fn is_high(&self) -> bool {
        false
    }

    fn wait_while_high(&self) {
    }
}

/// An SPI bus with no hardware behind it: it records every byte clocked out
/// and shifts zeroes back in.
pub struct SimSpi {
    pub sent: Vec<u8>,
}

impl SimSpi {
    /// Create a bus that has clocked nothing yet.
    pub fn new() -> (r: SimSpi)
        ensures
            r.sent@ == Seq::<u8>::empty(),
    {
        SimSpi { sent: Vec::new() }
    }

    /// The bytes clocked out so far, oldest first.
    pub fn bytes(&self) -> (r: &Vec<u8>)
        ensures
            r@ == self.sent@,
    {
        &self.sent
    }
}

impl SpiWrite for SimSpi {
    type Error = ();

    open spec fn mosi(&self) -> Seq<u8> {
        self.sent@
    }

    fn write(&mut self, data: &[u8]) -> (r: Result<(), ()>) {
        let ghost sent0 = self.sent@;
        let mut i: usize = 0;
        while i < data.len()
            invariant
                i <= data@.len(),
                self.sent@ == sent0 + data@.take(i as int),
            decreases data@.len() - i as int,
        {
            self.sent.push(data[i]);
            proof {
                assert(sent0 + data@.take(i as int + 1) =~= (sent0 + data@.take(i as int)).push(
                    data@[i as int],
                ));
            }
            i = i + 1;
        }
        proof {
            assert(data@.take(data@.len() as int) =~= data@);
        }
        Ok(())
    }
}

impl SpiDuplex for SimSpi {
    type Error = ();

    open spec fn mosi(&self) -> Seq<u8> {
        self.sent@
    }

    fn send(&mut self, byte: u8) -> (r: Result<(), ()>) {
        self.sent.push(byte);
        Ok(())
    }

    fn read(&mut self) -> (r: Result<u8, ()>) {
        Ok(0)
    }
}

/// The hardware interface of the in-host variant: a write-only SPI bus, a
/// chip select, a busy input, a data/command pin and a reset pin. The
/// controller's byte stream is the bus stream, since the controller is the
/// only device on this bus.
pub struct Interface<SPI, CS, BUSY, DC, RESET> {
    pub spi: SPI,
    pub cs: CS,
    pub busy: BUSY,
    pub dc: DC,
    pub reset: RESET,
}

impl<SPI, CS, BUSY, DC, RESET> Interface<SPI, CS, BUSY, DC, RESET> where
    SPI: SpiWrite,
    CS: OutPin,
    BUSY: InPin,
    DC: OutPin,
    RESET: OutPin,
 {
    /// Create a new interface from a bus and the four pins: chip select,
    /// busy, data/command, reset.
    pub fn new(spi: SPI, pins: (CS, BUSY, DC, RESET)) -> (r: Interface<SPI, CS, BUSY, DC, RESET>)
        ensures
            r.spi == spi,
            r.cs == pins.0,
            r.busy == pins.1,
            r.dc == pins.2,
            r.reset == pins.3,
    {
        Interface { spi, cs: pins.0, busy: pins.1, dc: pins.2, reset: pins.3 }
    }

    /// Release the bus and the pins.
    pub fn release(self) -> (r: (SPI, (CS, BUSY, DC, RESET)))
        ensures
            r.0 == self.spi,
            r.1.0 == self.cs,
            r.1.1 == self.busy,
            r.1.2 == self.dc,
            r.1.3 == self.reset,
    {
        (self.spi, (self.cs, self.busy, self.dc, self.reset))
    }

    /// One complete bus transfer: select the controller, clock the bytes,
    /// deselect.
    fn write(&mut self, data: &[u8]) -> (r: Result<(), SPI::Error>)
        ensures
            final(self).busy == old(self).busy,
            final(self).dc == old(self).dc,
            final(self).reset == old(self).reset,
            r is Ok ==> final(self).spi.mosi() == old(self).spi.mosi() + data@,
            r is Ok ==> !final(self).cs.pin_low(),
    {
        self.cs.set_low();
        self.spi.write(data)?;
        self.cs.set_high();
        Ok(())
    }
}

impl<SPI, CS, BUSY, DC, RESET> DisplayInterface for Interface<SPI, CS, BUSY, DC, RESET> where
    SPI: SpiWrite,
    CS: OutPin,
    BUSY: InPin,
    DC: OutPin,
    RESET: OutPin,
 {
    type Error = SPI::Error;

    open spec fn log(&self) -> Seq<u8> {
        self.spi.mosi()
    }

    open spec fn sram(&self) -> Seq<u8> {
        Seq::empty()
    }

    open spec fn supports_host_buffer(&self) -> bool {
        true
    }

    open spec fn supports_sram(&self) -> bool {
        false
    }

    open spec fn obeys_sram_model(&self) -> bool {
        false
    }

    fn send_command(&mut self, command: u8) -> (r: Result<(), SPI::Error>) {
        self.dc.set_low();
        let mut buf: Vec<u8> = Vec::new();
        buf.push(command);
        self.write(buf.as_slice())?;
        self.dc.set_high();
        proof {
            assert(old(self).spi.mosi() + buf@ =~= old(self).spi.mosi().push(command));
        }
        Ok(())
    }

    fn send_data(&mut self, data: &[u8]) -> (r: Result<(), SPI::Error>) {
        self.dc.set_high();
        self.write(data)
    }

    fn reset<D: Delay>(&mut self, delay: &mut D) {
        self.reset.set_low();
        delay.delay_ms(RESET_DELAY_MS);
        self.reset.set_high();
        delay.delay_ms(RESET_DELAY_MS);
        self.reset.set_low();
        delay.delay_ms(RESET_DELAY_MS);
        self.reset.set_high();
        delay.delay_ms(RESET_DELAY_MS);
        self.reset.set_low();
        delay.delay_ms(RESET_DELAY_MS);
        self.reset.set_high();
        delay.delay_ms(RESET_DELAY_MS);
    }

    fn busy_wait(&self) {
        self.busy.wait_while_high();
    }

    fn epd_update_data(&mut self, layer: u8, nbytes: u16, buf: &[u8]) -> (r: Result<
        (),
        SPI::Error,
    >) {
        let opcode: u8 = if layer == 0 {
            0x10
        } else {
            0x13
        };
        self.send_command(opcode)?;
        if buf.len() == 0 {
            proof {
                assert(old(self).log() + seq![epd_layer_opcode(layer)] + buf@ =~= old(
                    self,
                ).log().push(opcode));
            }
            Ok(())
        } else {
            let r = self.send_data(buf);
            proof {
                if r is Ok {
                    assert(old(self).log() + seq![epd_layer_opcode(layer)] + buf@ =~= old(
                        self,
                    ).log().push(opcode) + buf@);
                }
            }
            r
        }
    }

    fn sram_read(&mut self, _address: u16, _n: u16) -> (r: Result<Vec<u8>, SPI::Error>) {
        unreached()
    }

    fn sram_write(&mut self, _address: u16, _data: &[u8]) -> (r: Result<(), SPI::Error>) {
        unreached()
    }

    fn sram_clear(&mut self, _address: u16, _nbytes: u16, _val: u8) -> (r: Result<
        (),
        SPI::Error,
    >) {
        unreached()
    }

    fn sram_epd_update_data(&mut self, _layer: u8, _nbytes: u16, _start_address: u16) -> (r:
        Result<(), SPI::Error>) {
        unreached()
    }
}

/// A pure in-memory transport: records the controller byte stream and holds
/// the external memory contents in a host vector. It supports every
/// capability and obeys the memory model exactly, so host-side tests can
/// observe precisely what a device would.
pub struct SimInterface {
    /// Every byte the simulated controller has observed.
    pub sent: Vec<u8>,
    /// The simulated external memory chip.
    pub mem: Vec<u8>,
}

impl SimInterface {
    /// Create a simulator with `sram_size` bytes of zeroed external memory.
    pub fn new(sram_size: u16) -> (r: SimInterface)
        ensures
            r.sent@ == Seq::<u8>::empty(),
            r.mem@ == Seq::new(sram_size as nat, |i: int| 0u8),
    {
        let mut mem: Vec<u8> = Vec::new();
        let mut i: usize = 0;
        while i < sram_size as usize
            invariant
                i <= sram_size as usize,
                mem@ == Seq::new(i as nat, |j: int| 0u8),
            decreases sram_size as int - i as int,
        {
            mem.push(0u8);
            proof {
                assert(mem@ =~= Seq::new((i + 1) as nat, |j: int| 0u8));
            }
            i = i + 1;
        }
        proof {
            assert(mem@ =~= Seq::new(sram_size as nat, |j: int| 0u8));
        }
        SimInterface { sent: Vec::new(), mem }
    }

    /// The bytes the simulated controller has observed, oldest first.
    pub fn sent(&self) -> (r: &Vec<u8>)
        ensures
            r@ == self.log(),
    {
        &self.sent
    }

    /// The simulated external memory contents.
    pub fn memory(&self) -> (r: &Vec<u8>)
        ensures
            r@ == self.sram(),
    {
        &self.mem
    }
}

impl DisplayInterface for SimInterface {
    type Error = ();

    open spec fn log(&self) -> Seq<u8> {
        self.sent@
    }

    open spec fn sram(&self) -> Seq<u8> {
        self.mem@
    }

    open spec fn supports_host_buffer(&self) -> bool {
        true
    }

    open spec fn supports_sram(&self) -> bool {
        true
    }

    open spec fn obeys_sram_model(&self) -> bool {
        true
    }

    fn send_command(&mut self, command: u8) -> (r: Result<(), ()>) {
        self.sent.push(command);
        Ok(())
    }

    fn send_data(&mut self, data: &[u8]) -> (r: Result<(), ()>) {
        let ghost sent0 = self.sent@;
        let mut i: usize = 0;
        while i < data.len()
            invariant
                i <= data@.len(),
                self.mem@ == old(self).mem@,
                self.sent@ == sent0 + data@.take(i as int),
            decreases data@.len() - i as int,
        {
            self.sent.push(data[i]);
            proof {
                assert(sent0 + data@.take(i as int + 1) =~= (sent0 + data@.take(i as int)).push(
                    data@[i as int],
                ));
            }
            i = i + 1;
        }
        proof {
            assert(data@.take(data@.len() as int) =~= data@);
        }
        Ok(())
    }

    fn reset<D: Delay>(&mut self, _delay: &mut D) {
    }

    fn busy_wait(&self) {
    }

    fn epd_update_data(&mut self, layer: u8, nbytes: u16, buf: &[u8]) -> (r: Result<(), ()>) {
        let opcode: u8 = if layer == 0 {
            0x10
        } else {
            0x13
        };
        let ghost sent0 = self.sent@;
        self.sent.push(opcode);
        let mut i: usize = 0;
        while i < buf.len()
            invariant
                i <= buf@.len(),
                self.mem@ == old(self).mem@,
                self.sent@ == sent0.push(epd_layer_opcode(layer)) + buf@.take(i as int),
            decreases buf@.len() - i as int,
        {
            self.sent.push(buf[i]);
            proof {
                assert(sent0.push(epd_layer_opcode(layer)) + buf@.take(i as int + 1) =~= (sent0
                    + seq![epd_layer_opcode(layer)] + buf@.take(i as int)).push(buf@[i as int]));
                assert(sent0.push(epd_layer_opcode(layer)) + buf@.take(i as int) =~= sent0 + seq![
                    epd_layer_opcode(layer),
                ] + buf@.take(i as int));
            }
            i = i + 1;
        }
        proof {
            assert(self.sent@ =~= sent0 + seq![epd_layer_opcode(layer)] + buf@);
        }
        Ok(())
    }

    fn sram_read(&mut self, address: u16, n: u16) -> (r: Result<Vec<u8>, ()>) {
        let mut out: Vec<u8> = Vec::new();
        let mut i: usize = 0;
        while i < n as usize
            invariant
                i <= n as usize,
                address as int + n as int <= self.mem@.len(),
                out@.len() == i as int,
                forall|j: int| 0 <= j < i as int ==> out@[j] == self.mem@[address as int + j],
            decreases n as int - i as int,
        {
            out.push(self.mem[address as usize + i]);
            i = i + 1;
        }
        proof {
            assert(out@ =~= self.mem@.subrange(address as int, address as int + n as int));
        }
        Ok(out)
    }

    fn sram_write(&mut self, address: u16, data: &[u8]) -> (r: Result<(), ()>) {
        let ghost m0 = self.mem@;
        let mem_len: usize = self.mem.len();
        let mut i: usize = 0;
        while i < data.len()
            invariant
                i <= data@.len(),
                address as int + data@.len() <= mem_len as int,
                m0.len() == mem_len as int,
                self.sent@ == old(self).sent@,
                self.mem@.len() == m0.len(),
                forall|j: int|
                    0 <= j < m0.len() && !(address as int <= j < address as int + i as int)
                        ==> self.mem@[j] == m0[j],
                forall|j: int| 0 <= j < i as int ==> self.mem@[address as int + j] == data@[j],
            decreases data@.len() - i as int,
        {
            self.mem.set(address as usize + i, data[i]);
            i = i + 1;
        }
        proof {
            assert(self.mem@ =~= overwrite(m0, address as int, data@));
        }
        Ok(())
    }

    fn sram_clear(&mut self, address: u16, nbytes: u16, val: u8) -> (r: Result<(), ()>) {
        let ghost m0 = self.mem@;
        let mem_len: usize = self.mem.len();
        let mut i: usize = 0;
        while i < nbytes as usize
            invariant
                i <= nbytes as usize,
                address as int + nbytes as int <= mem_len as int,
                m0.len() == mem_len as int,
                self.sent@ == old(self).sent@,
                self.mem@.len() == m0.len(),
                forall|j: int|
                    0 <= j < m0.len() && !(address as int <= j < address as int + i as int)
                        ==> self.mem@[j] == m0[j],
                forall|j: int| 0 <= j < i as int ==> #[trigger] self.mem@[address as int + j] == val,
            decreases nbytes as int - i as int,
        {
            self.mem.set(address as usize + i, val);
            i = i + 1;
        }
        proof {
            let fill = Seq::new(nbytes as nat, |j: int| val);
            assert forall|k: int| 0 <= k < m0.len() implies self.mem@[k] == overwrite(
                m0,
                address as int,
                fill,
            )[k] by {
                if address as int <= k < address as int + nbytes as int {
                    assert(self.mem@[address as int + (k - address as int)] == val);
                }
            }
            assert(self.mem@ =~= overwrite(m0, address as int, fill));
        }
        Ok(())
    }

    fn sram_epd_update_data(&mut self, layer: u8, nbytes: u16, start_address: u16) -> (r: Result<
        (),
        (),
    >) {
        let opcode: u8 = if layer == 0 {
            0x10
        } else {
            0x13
        };
        let ghost sent0 = self.sent@;
        self.sent.push(opcode);
        let mut i: usize = 0;
        while i < nbytes as usize
            invariant
                i <= nbytes as usize,
                start_address as int + nbytes as int <= self.mem@.len(),
                self.mem@ == old(self).mem@,
                self.sent@.len() == sent0.len() + 1 + i as int,
                sent0.is_prefix_of(self.sent@),
                self.sent@[sent0.len() as int] == epd_layer_opcode(layer),
                forall|j: int|
                    0 <= j < i as int ==> #[trigger] self.sent@[sent0.len() + 1 + j] == self.mem@[
                        start_address as int + j],
            decreases nbytes as int - i as int,
        {
            self.sent.push(self.mem[start_address as usize + i]);
            i = i + 1;
        }
        proof {
            let full = sent0 + seq![epd_layer_opcode(layer)] + self.mem@.subrange(
                start_address as int,
                start_address as int + nbytes as int,
            );
            assert forall|k: int| 0 <= k < self.sent@.len() implies self.sent@[k] == full[k] by {
                if k < sent0.len() {
                    assert(sent0.is_prefix_of(self.sent@));
                    assert(self.sent@[k] == sent0[k]);
                } else if k > sent0.len() {
                    assert(self.sent@[sent0.len() + 1 + (k - sent0.len() - 1)] == self.mem@[
                        start_address as int + (k - sent0.len() - 1)]);
                }
            }
            assert(self.sent@ =~= full);
        }
        Ok(())
    }
}


/// The read opcode of the external memory chip.
pub const MCPSRAM_READ: u8 = 0x03;

/// The write opcode of the external memory chip.
pub const MCPSRAM_WRITE: u8 = 0x02;

/// The write-status-register opcode of the external memory chip.
pub const MCPSRAM_WRSR: u8 = 0x01;

/// The status-register value with the sequential-mode bit (bit 6) set:
/// consecutive transfers then auto-increment the address.
pub const K640_SEQUENTIAL_MODE: u8 = 0x40;

/// The three-byte header that opens an addressed external-memory transfer:
/// the opcode, then the address high byte, then the address low byte.
pub open spec fn sram_header(opcode: u8, address: u16) -> Seq<u8> {
    seq![opcode, (address >> 8) as u8, (address & 0xFF) as u8]
}

/// The shared bus of the external-memory variant: one full-duplex SPI bus
/// with two independent chip selects, one for the display controller and
/// one for the memory chip. At most one is asserted at a time, except
/// during the device-to-device streaming path, which holds both.
pub struct SpiBus<SPI, EPDCS, SRAMCS> {
    pub spi: SPI,
    pub epd_cs: EPDCS,
    pub sram_cs: SRAMCS,
}

impl<SPI, EPDCS, SRAMCS> SpiBus<SPI, EPDCS, SRAMCS> where
    SPI: SpiDuplex,
    EPDCS: OutPin,
    SRAMCS: OutPin,
 {
    /// Create a new shared bus; both chip selects start deasserted.
    pub fn new(spi: SPI, pins: (EPDCS, SRAMCS)) -> (r: SpiBus<SPI, EPDCS, SRAMCS>)
        ensures
            r.spi == spi,
            !r.epd_cs.pin_low(),
            !r.sram_cs.pin_low(),
    {
        let mut epd_cs = pins.0;
        let mut sram_cs = pins.1;
        epd_cs.set_high();
        sram_cs.set_high();
        SpiBus { spi, epd_cs, sram_cs }
    }

    /// Release the bus and the chip-select pins.
    pub fn release(self) -> (r: (SPI, (EPDCS, SRAMCS)))
        ensures
            r.0 == self.spi,
            r.1.0 == self.epd_cs,
            r.1.1 == self.sram_cs,
    {
        (self.spi, (self.epd_cs, self.sram_cs))
    }

    /// Clock out `data`, discarding whatever the selected device shifts
    /// back. The chip selects are not touched.
    fn write(&mut self, data: &[u8]) -> (r: Result<(), SPI::Error>)
        ensures
            final(self).epd_cs == old(self).epd_cs,
            final(self).sram_cs == old(self).sram_cs,
            r is Ok ==> final(self).spi.mosi() == old(self).spi.mosi() + data@,
    {
        let ghost m0 = self.spi.mosi();
        let mut i: usize = 0;
        while i < data.len()
            invariant
                i <= data@.len(),
                self.epd_cs == old(self).epd_cs,
                self.sram_cs == old(self).sram_cs,
                self.spi.mosi() == m0 + data@.take(i as int),
            decreases data@.len() - i as int,
        {
            self.spi.send(data[i])?;
            let _shifted = self.spi.read()?;
            proof {
                assert(m0 + data@.take(i as int + 1) =~= (m0 + data@.take(i as int)).push(
                    data@[i as int],
                ));
            }
            i = i + 1;
        }
        proof {
            assert(data@.take(data@.len() as int) =~= data@);
        }
        Ok(())
    }

    /// Clock `n` zero bytes out and collect the `n` bytes the selected
    /// device shifts back. The chip selects are not touched.
    fn transfer(&mut self, n: u16) -> (r: Result<Vec<u8>, SPI::Error>)
        ensures
            final(self).epd_cs == old(self).epd_cs,
            final(self).sram_cs == old(self).sram_cs,
            r matches Ok(out) ==> out@.len() == n as int,
            r is Ok ==> final(self).spi.mosi() == old(self).spi.mosi() + Seq::new(
                n as nat,
                |i: int| 0u8,
            ),
    {
        let ghost m0 = self.spi.mosi();
        let mut out: Vec<u8> = Vec::new();
        let mut i: usize = 0;
        while i < n as usize
            invariant
                i <= n as usize,
                out@.len() == i as int,
                self.epd_cs == old(self).epd_cs,
                self.sram_cs == old(self).sram_cs,
                self.spi.mosi() == m0 + Seq::new(i as nat, |j: int| 0u8),
            decreases n as int - i as int,
        {
            self.spi.send(0)?;
            let c = self.spi.read()?;
            out.push(c);
            proof {
                assert(m0 + Seq::new((i + 1) as nat, |j: int| 0u8) =~= (m0 + Seq::new(
                    i as nat,
                    |j: int| 0u8,
                )).push(0u8));
            }
            i = i + 1;
        }
        Ok(out)
    }

    /// The three-byte addressed header of an external-memory transfer.
    fn header(opcode: u8, address: u16) -> (r: Vec<u8>)
        ensures
            r@ == sram_header(opcode, address),
    {
        let mut v: Vec<u8> = Vec::new();
        v.push(opcode);
        v.push((address >> 8u16) as u8);
        v.push((address & 0xFF) as u8);
        proof {
            assert(v@ =~= sram_header(opcode, address));
        }
        v
    }

    /// Wake the memory chip by clocking three 0xFF bytes with it selected.
    pub fn sram_init(&mut self) -> (r: Result<(), SPI::Error>)
        ensures
            final(self).epd_cs == old(self).epd_cs,
            r is Ok ==> final(self).spi.mosi() == old(self).spi.mosi() + seq![
                0xFFu8,
                0xFFu8,
                0xFFu8,
            ],
            r is Ok ==> !final(self).sram_cs.pin_low(),
    {
        self.sram_cs.set_low();
        let mut v: Vec<u8> = Vec::new();
        v.push(0xFF);
        v.push(0xFF);
        v.push(0xFF);
        proof {
            assert(v@ =~= seq![0xFFu8, 0xFFu8, 0xFFu8]);
        }
        self.write(v.as_slice())?;
        self.sram_cs.set_high();
        Ok(())
    }

    /// Put the memory chip into sequential (auto-increment) addressing
    /// mode by writing its status register.
    pub fn sram_seq(&mut self) -> (r: Result<(), SPI::Error>)
        ensures
            final(self).epd_cs == old(self).epd_cs,
            r is Ok ==> final(self).spi.mosi() == old(self).spi.mosi() + seq![
                MCPSRAM_WRSR,
                K640_SEQUENTIAL_MODE,
            ],
            r is Ok ==> !final(self).sram_cs.pin_low(),
    {
        self.sram_cs.set_low();
        let mut v: Vec<u8> = Vec::new();
        v.push(MCPSRAM_WRSR);
        v.push(K640_SEQUENTIAL_MODE);
        proof {
            assert(v@ =~= seq![MCPSRAM_WRSR, K640_SEQUENTIAL_MODE]);
        }
        self.write(v.as_slice())?;
        self.sram_cs.set_high();
        Ok(())
    }

    /// Write `data` to the memory chip starting at `address`: the write
    /// header, then the payload, all under one chip select.
    pub fn sram_write(&mut self, address: u16, data: &[u8]) -> (r: Result<(), SPI::Error>)
        ensures
            final(self).epd_cs == old(self).epd_cs,
            r is Ok ==> final(self).spi.mosi() == old(self).spi.mosi() + sram_header(
                MCPSRAM_WRITE,
                address,
            ) + data@,
            r is Ok ==> !final(self).sram_cs.pin_low(),
    {
        self.sram_cs.set_low();
        let cmd = Self::header(MCPSRAM_WRITE, address);
        self.write(cmd.as_slice())?;
        self.write(data)?;
        self.sram_cs.set_high();
        Ok(())
    }

    /// Read `n` bytes from the memory chip starting at `address`: the read
    /// header, then `n` dummy zero bytes whose returned bytes are
    /// collected, all under one chip select.
    pub fn sram_read(&mut self, address: u16, n: u16) -> (r: Result<Vec<u8>, SPI::Error>)
        ensures
            final(self).epd_cs == old(self).epd_cs,
            r matches Ok(out) ==> out@.len() == n as int,
            r is Ok ==> final(self).spi.mosi() == old(self).spi.mosi() + sram_header(
                MCPSRAM_READ,
                address,
            ) + Seq::new(n as nat, |i: int| 0u8),
            r is Ok ==> !final(self).sram_cs.pin_low(),
    {
        self.sram_cs.set_low();
        let cmd = Self::header(MCPSRAM_READ, address);
        self.write(cmd.as_slice())?;
        let out = self.transfer(n)?;
        self.sram_cs.set_high();
        Ok(out)
    }

    /// Fill `len` bytes of the memory chip starting at `address` with
    /// `val`: the write header, then `len` copies of `val`, discarding the
    /// returned bytes.
    pub fn sram_erase(&mut self, address: u16, len: u16, val: u8) -> (r: Result<(), SPI::Error>)
        ensures
            final(self).epd_cs == old(self).epd_cs,
            r is Ok ==> final(self).spi.mosi() == old(self).spi.mosi() + sram_header(
                MCPSRAM_WRITE,
                address,
            ) + Seq::new(len as nat, |i: int| val),
            r is Ok ==> !final(self).sram_cs.pin_low(),
    {
        self.sram_cs.set_low();
        let cmd = Self::header(MCPSRAM_WRITE, address);
        self.write(cmd.as_slice())?;
        let ghost m1 = self.spi.mosi();
        let mut i: usize = 0;
        while i < len as usize
            invariant
                i <= len as usize,
                self.epd_cs == old(self).epd_cs,
                self.spi.mosi() == m1 + Seq::new(i as nat, |j: int| val),
            decreases len as int - i as int,
        {
            self.spi.send(val)?;
            let _shifted = self.spi.read()?;
            proof {
                assert(m1 + Seq::new((i + 1) as nat, |j: int| val) =~= (m1 + Seq::new(
                    i as nat,
                    |j: int| val,
                )).push(val));
            }
            i = i + 1;
        }
        self.sram_cs.set_high();
        Ok(())
    }

    /// Open the device-to-device streaming path: send the read header to
    /// the memory chip, then, while still holding its chip select low,
    /// assert the controller's chip select and clock `epd_location` (the
    /// controller's write opcode) out; the byte the memory chip shifts
    /// back during that clock is the first plane byte and is returned. On
    /// success both chip selects are left asserted for the body transfer.
    pub fn sram_epd_move_header(&mut self, address: u16, epd_location: u8) -> (r: Result<
        u8,
        SPI::Error,
    >)
        ensures
            r is Ok ==> final(self).spi.mosi() == old(self).spi.mosi() + sram_header(
                MCPSRAM_READ,
                address,
            ) + seq![epd_location],
            r is Ok ==> final(self).sram_cs.pin_low(),
            r is Ok ==> final(self).epd_cs.pin_low(),
    {
        self.sram_cs.set_low();
        let cmd = Self::header(MCPSRAM_READ, address);
        self.write(cmd.as_slice())?;
        self.epd_cs.set_low();
        self.spi.send(epd_location)?;
        let c = self.spi.read()?;
        proof {
            assert(old(self).spi.mosi() + sram_header(MCPSRAM_READ, address) + seq![epd_location]
                =~= (old(self).spi.mosi() + sram_header(MCPSRAM_READ, address)).push(
                epd_location,
            ));
        }
        Ok(c)
    }

    /// Stream the body after [`SpiBus::sram_epd_move_header`]: clock
    /// `data_len` bytes to the controller, starting with `ch` and
    /// continuing with each byte the memory chip shifts back, then release
    /// both chip selects. The bytes after the first come from the memory
    /// device and are not observable by the host.
    pub fn sram_epd_move_body(&mut self, ch: u8, data_len: u16) -> (r: Result<(), SPI::Error>)
        ensures
            r is Ok ==> final(self).spi.mosi().len() == old(self).spi.mosi().len()
                + data_len as int,
            r is Ok ==> old(self).spi.mosi().is_prefix_of(final(self).spi.mosi()),
            r is Ok && data_len > 0 ==> final(self).spi.mosi()[old(self).spi.mosi().len() as int]
                == ch,
            r is Ok ==> !final(self).sram_cs.pin_low(),
            r is Ok ==> !final(self).epd_cs.pin_low(),
    {
        let ghost m0 = self.spi.mosi();
        let mut c = ch;
        let mut i: usize = 0;
        while i < data_len as usize
            invariant
                i <= data_len as usize,
                self.spi.mosi().len() == m0.len() + i as int,
                m0.is_prefix_of(self.spi.mosi()),
                i > 0 ==> self.spi.mosi()[m0.len() as int] == ch,
                i == 0 ==> c == ch,
            decreases data_len as int - i as int,
        {
            self.spi.send(c)?;
            c = self.spi.read()?;
            i = i + 1;
        }
        self.epd_cs.set_high();
        self.sram_cs.set_high();
        Ok(())
    }

    /// Write to the display controller: clock `data` out with the
    /// controller's chip select asserted.
    pub fn epd_write(&mut self, data: &[u8]) -> (r: Result<(), SPI::Error>)
        ensures
            final(self).sram_cs == old(self).sram_cs,
            r is Ok ==> final(self).spi.mosi() == old(self).spi.mosi() + data@,
            r is Ok ==> !final(self).epd_cs.pin_low(),
    {
        self.epd_cs.set_low();
        self.write(data)?;
        self.epd_cs.set_high();
        Ok(())
    }
}

/// The hardware interface of the external-memory variant: the shared bus
/// with its two chip selects, plus the busy, data/command and reset pins.
///
/// The controller byte stream and the memory contents are carried as ghost
/// state beside the bus: each operation appends exactly what its verified
/// wire traffic shows. Bytes streamed device-to-device never pass through
/// the host; the stream model records only how many there were and nothing
/// about their values, and reads are not promised to match the model
/// (`obeys_sram_model` is false), since the bytes come back from a physical
/// chip outside the proof.
pub struct SramDisplayInterface<SPI, EPDCS, SRAMCS, BUSY, DC, RESET> {
    pub spi_bus: SpiBus<SPI, EPDCS, SRAMCS>,
    pub busy: BUSY,
    pub dc: DC,
    pub reset: RESET,
    /// The modelled controller byte stream; placeholder zeroes stand for
    /// device-to-device bytes the host never sees.
    pub epd_log: Ghost<Seq<u8>>,
    /// The modelled memory contents over the full 16-bit address space.
    pub mem: Ghost<Seq<u8>>,
}

impl<SPI, EPDCS, SRAMCS, BUSY, DC, RESET> SramDisplayInterface<
    SPI,
    EPDCS,
    SRAMCS,
    BUSY,
    DC,
    RESET,
> where
    SPI: SpiDuplex,
    EPDCS: OutPin,
    SRAMCS: OutPin,
    BUSY: InPin,
    DC: OutPin,
    RESET: OutPin,
 {
    /// Create a display interface from the shared bus and the busy,
    /// data/command and reset pins; data/command starts low and reset
    /// starts inactive high.
    pub fn new(spi_bus: SpiBus<SPI, EPDCS, SRAMCS>, pins: (BUSY, DC, RESET)) -> (r:
        SramDisplayInterface<SPI, EPDCS, SRAMCS, BUSY, DC, RESET>)
        ensures
            r.spi_bus == spi_bus,
            r.busy == pins.0,
            r.epd_log@ == Seq::<u8>::empty(),
            r.mem@.len() == 0x10000,
            r.dc.pin_low(),
            !r.reset.pin_low(),
    {
        let mut dc = pins.1;
        let mut reset = pins.2;
        dc.set_low();
        reset.set_high();
        SramDisplayInterface {
            spi_bus,
            busy: pins.0,
            dc,
            reset,
            epd_log: Ghost(Seq::empty()),
            mem: Ghost(Seq::new(0x10000, |i: int| 0u8)),
        }
    }

    /// Release the bus and the pins.
    pub fn release(self) -> (r: (SpiBus<SPI, EPDCS, SRAMCS>, (BUSY, DC, RESET)))
        ensures
            r.0 == self.spi_bus,
            r.1.0 == self.busy,
            r.1.1 == self.dc,
            r.1.2 == self.reset,
    {
        (self.spi_bus, (self.busy, self.dc, self.reset))
    }
}

impl<SPI, EPDCS, SRAMCS, BUSY, DC, RESET> DisplayInterface for SramDisplayInterface<
    SPI,
    EPDCS,
    SRAMCS,
    BUSY,
    DC,
    RESET,
> where
    SPI: SpiDuplex,
    EPDCS: OutPin,
    SRAMCS: OutPin,
    BUSY: InPin,
    DC: OutPin,
    RESET: OutPin,
 {
    type Error = SPI::Error;

    open spec fn log(&self) -> Seq<u8> {
        self.epd_log@
    }

    open spec fn sram(&self) -> Seq<u8> {
        self.mem@
    }

    open spec fn supports_host_buffer(&self) -> bool {
        false
    }

    open spec fn supports_sram(&self) -> bool {
        true
    }

    open spec fn obeys_sram_model(&self) -> bool {
        false
    }

    fn send_command(&mut self, command: u8) -> (r: Result<(), SPI::Error>) {
        self.dc.set_low();
        let mut buf: Vec<u8> = Vec::new();
        buf.push(command);
        self.spi_bus.epd_write(buf.as_slice())?;
        self.epd_log = Ghost(self.epd_log@.push(command));
        Ok(())
    }

    fn send_data(&mut self, data: &[u8]) -> (r: Result<(), SPI::Error>) {
        self.dc.set_high();
        self.spi_bus.epd_write(data)?;
        self.epd_log = Ghost(self.epd_log@ + data@);
        Ok(())
    }

    fn reset<D: Delay>(&mut self, delay: &mut D) {
        let _ = self.spi_bus.sram_init();
        self.reset.set_low();
        delay.delay_ms(RESET_DELAY_MS);
        self.reset.set_high();
        delay.delay_ms(RESET_DELAY_MS);
        self.reset.set_low();
        delay.delay_ms(RESET_DELAY_MS);
        self.reset.set_high();
        delay.delay_ms(RESET_DELAY_MS);
        self.reset.set_low();
        delay.delay_ms(RESET_DELAY_MS);
        self.reset.set_high();
        delay.delay_ms(RESET_DELAY_MS);
        let _ = self.spi_bus.sram_seq();
    }

    fn busy_wait(&self) {
        self.busy.wait_while_high();
    }

    fn epd_update_data(&mut self, _layer: u8, _nbytes: u16, _buf: &[u8]) -> (r: Result<
        (),
        SPI::Error,
    >) {
        unreached()
    }

    fn sram_read(&mut self, address: u16, n: u16) -> (r: Result<Vec<u8>, SPI::Error>) {
        let out = self.spi_bus.sram_read(address, n)?;
        Ok(out)
    }

    fn sram_write(&mut self, address: u16, data: &[u8]) -> (r: Result<(), SPI::Error>) {
        self.spi_bus.sram_write(address, data)?;
        self.mem = Ghost(overwrite(self.mem@, address as int, data@));
        proof {
            assert(self.mem@.len() == old(self).mem@.len());
        }
        Ok(())
    }

    fn sram_clear(&mut self, address: u16, nbytes: u16, val: u8) -> (r: Result<(), SPI::Error>) {
        self.spi_bus.sram_erase(address, nbytes, val)?;
        self.mem = Ghost(overwrite(self.mem@, address as int, Seq::new(nbytes as nat, |i: int| val)));
        proof {
            assert(self.mem@.len() == old(self).mem@.len());
        }
        Ok(())
    }

    fn sram_epd_update_data(&mut self, layer: u8, nbytes: u16, start_address: u16) -> (r: Result<
        (),
        SPI::Error,
    >) {
        let epd_location: u8 = if layer == 0 {
            0x10
        } else {
            0x13
        };
        self.dc.set_low();
        let ch = self.spi_bus.sram_epd_move_header(start_address, epd_location)?;
        self.dc.set_high();
        self.spi_bus.sram_epd_move_body(ch, nbytes)?;
        self.epd_log = Ghost(
            self.epd_log@ + seq![epd_layer_opcode(layer)] + Seq::new(nbytes as nat, |i: int| 0u8),
        );
        proof {
            assert(old(self).epd_log@.is_prefix_of(self.epd_log@));
            assert(self.epd_log@[old(self).epd_log@.len() as int] == epd_layer_opcode(layer));
        }
        Ok(())
    }
}


} // verus!
