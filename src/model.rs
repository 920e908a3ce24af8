//! The registry of supported hardware: which (vendor, product) pairs are
//! known and what each model offers.

use vstd::prelude::*;

use crate::error::StreamDeckError;

verus! {

/// The manufacturer's USB vendor id, shared by every supported model.
pub const VENDOR_ID: u16 = 0x0FD9;

pub const PRODUCT_ID_ORIGINAL: u16 = 0x0060;
pub const PRODUCT_ID_ORIGINAL_V2: u16 = 0x006D;
pub const PRODUCT_ID_MINI: u16 = 0x0063;
pub const PRODUCT_ID_XL: u16 = 0x006c;
pub const PRODUCT_ID_XL_V2: u16 = 0x008F;
pub const PRODUCT_ID_MK2: u16 = 0x0080;
pub const PRODUCT_ID_MINI_MK2: u16 = 0x0090;
pub const PRODUCT_ID_PEDAL: u16 = 0x0086;
pub const PRODUCT_ID_PLUS: u16 = 0x0084;

/// A rectangular arrangement of controls, `height` rows by `width` columns.
#[derive(Clone, Copy, Debug, PartialEq, Eq)]
pub struct Grid {
    height: usize,
    width: usize,
}

impl Grid {
    pub closed spec fn rows(self) -> nat {
        self.height as nat
    }

    pub closed spec fn cols(self) -> nat {
        self.width as nat
    }

    /// The number of controls can be counted in a `usize`.
    pub open spec fn wf(self) -> bool {
        self.rows() * self.cols() <= usize::MAX
    }

    /// A grid of `height` rows and `width` columns.
    pub fn new(height: usize, width: usize) -> (r: Option<Self>)
        ensures
            r matches Some(g) && g.rows() == height && g.cols() == width,
    {
        Some(Grid { height, width })
    }

    pub fn count(self) -> (n: usize)
        requires
            self.wf(),
        ensures
            n == self.rows() * self.cols(),
    {
        self.height * self.width
    }

    pub fn height(&self) -> (r: usize)
        ensures
            r == self.rows(),
    {
        self.height
    }

    pub fn width(&self) -> (r: usize)
        ensures
            r == self.cols(),
    {
        self.width
    }
}

/// The supported hardware variants.
#[derive(Clone, Copy, Debug, PartialEq, Eq, Structural)]
pub enum Kind {
    Original,
    OriginalV2,
    Mini,
    XL,
    XLV2,
    MK2,
    MiniMK2,
    Pedal,
    Plus,
}

/// The product id under which each kind enumerates.
pub open spec fn spec_product_id(kind: Kind) -> u16 {
    match kind {
        Kind::Original => PRODUCT_ID_ORIGINAL,
        Kind::OriginalV2 => PRODUCT_ID_ORIGINAL_V2,
        Kind::Mini => PRODUCT_ID_MINI,
        Kind::XL => PRODUCT_ID_XL,
        Kind::XLV2 => PRODUCT_ID_XL_V2,
        Kind::MK2 => PRODUCT_ID_MK2,
        Kind::MiniMK2 => PRODUCT_ID_MINI_MK2,
        Kind::Pedal => PRODUCT_ID_PEDAL,
        Kind::Plus => PRODUCT_ID_PLUS,
    }
}

/// The kind registered under a product id, if any.
pub open spec fn spec_kind_of_product(product_id: u16) -> Option<Kind> {
    if product_id == PRODUCT_ID_ORIGINAL {
        Some(Kind::Original)
    } else if product_id == PRODUCT_ID_ORIGINAL_V2 {
        Some(Kind::OriginalV2)
    } else if product_id == PRODUCT_ID_MINI {
        Some(Kind::Mini)
    } else if product_id == PRODUCT_ID_XL {
        Some(Kind::XL)
    } else if product_id == PRODUCT_ID_XL_V2 {
        Some(Kind::XLV2)
    } else if product_id == PRODUCT_ID_MK2 {
        Some(Kind::MK2)
    } else if product_id == PRODUCT_ID_MINI_MK2 {
        Some(Kind::MiniMK2)
    } else if product_id == PRODUCT_ID_PEDAL {
        Some(Kind::Pedal)
    } else if product_id == PRODUCT_ID_PLUS {
        Some(Kind::Plus)
    } else {
        None
    }
}

/// Button layout of each kind, as (rows, columns).
pub open spec fn spec_button_grid(kind: Kind) -> Option<(nat, nat)> {
    match kind {
        Kind::Original | Kind::OriginalV2 | Kind::MK2 => Some((3nat, 5nat)),
        Kind::Mini | Kind::MiniMK2 => Some((2nat, 3nat)),
        Kind::XL | Kind::XLV2 => Some((4nat, 8nat)),
        Kind::Pedal => None,
        Kind::Plus => Some((2nat, 4nat)),
    }
}

/// Encoder layout of each kind, as (rows, columns).
pub open spec fn spec_knob_grid(kind: Kind) -> Option<(nat, nat)> {
    match kind {
        Kind::Plus => Some((1nat, 4nat)),
        _ => None,
    }
}

/// Foot pedal layout of each kind, as (rows, columns).
pub open spec fn spec_pedal_grid(kind: Kind) -> Option<(nat, nat)> {
    match kind {
        Kind::Pedal => Some((1nat, 3nat)),
        _ => None,
    }
}

/// Size of the LCD strip of each kind, as (width, height) in pixels.
pub open spec fn spec_lcd_strip_size(kind: Kind) -> Option<(u16, u16)> {
    match kind {
        Kind::Plus => Some((800u16, 100u16)),
        _ => None,
    }
}

pub open spec fn grid_view(g: Option<Grid>) -> Option<(nat, nat)> {
    match g {
        Some(g) => Some((g.rows(), g.cols())),
        None => None,
    }
}

pub open spec fn grid_wf(g: Option<Grid>) -> bool {
    g matches Some(g) ==> g.wf()
}

/// The name under which each kind is shown to a user.
pub open spec fn spec_kind_name(kind: Kind) -> Seq<char> {
    match kind {
        Kind::Original => "Original"@,
        Kind::OriginalV2 => "Original v2"@,
        Kind::Mini => "Mini"@,
        Kind::XL => "XL"@,
        Kind::XLV2 => "XL v2"@,
        Kind::MK2 => "MK2"@,
        Kind::MiniMK2 => "Mini MK2"@,
        Kind::Pedal => "Pedal"@,
        Kind::Plus => "Plus"@,
    }
}

impl Kind {
    /// The name under which the kind is shown to a user.
    pub fn name(&self) -> (r: &'static str)
        ensures
            r@ == spec_kind_name(*self),
    {
        match self {
            Kind::Original => "Original",
            Kind::OriginalV2 => "Original v2",
            Kind::Mini => "Mini",
            Kind::XL => "XL",
            Kind::XLV2 => "XL v2",
            Kind::MK2 => "MK2",
            Kind::MiniMK2 => "Mini MK2",
            Kind::Pedal => "Pedal",
            Kind::Plus => "Plus",
        }
    }
}

/// Capabilities of one hardware variant.
#[derive(Clone, Copy, Debug, PartialEq, Eq)]
pub struct Model {
    kind: Kind,
    vendor_id: u16,
    product_id: u16,
    button_grid: Option<Grid>,
    knob_grid: Option<Grid>,
    pedal_grid: Option<Grid>,
    lcd_strip_size: Option<(u16, u16)>,
}

impl Model {
    /// The record is the registry's row for its kind.
    pub open spec fn is_row_of(self, kind: Kind) -> bool {
        &&& self.spec_kind() == kind
        &&& self.spec_vendor_id() == VENDOR_ID
        &&& self.spec_product_id() == spec_product_id(kind)
        &&& grid_view(self.spec_button_grid()) == spec_button_grid(kind)
        &&& grid_view(self.spec_knob_grid()) == spec_knob_grid(kind)
        &&& grid_view(self.spec_pedal_grid()) == spec_pedal_grid(kind)
        &&& self.spec_lcd_strip_size() == spec_lcd_strip_size(kind)
        &&& grid_wf(self.spec_button_grid())
        &&& grid_wf(self.spec_knob_grid())
        &&& grid_wf(self.spec_pedal_grid())
    }

    pub open spec fn wf(self) -> bool {
        self.is_row_of(self.spec_kind())
    }

    pub closed spec fn spec_kind(self) -> Kind {
        self.kind
    }

    pub closed spec fn spec_vendor_id(self) -> u16 {
        self.vendor_id
    }

    pub closed spec fn spec_product_id(self) -> u16 {
        self.product_id
    }

    pub closed spec fn spec_button_grid(self) -> Option<Grid> {
        self.button_grid
    }

    pub closed spec fn spec_knob_grid(self) -> Option<Grid> {
        self.knob_grid
    }

    pub closed spec fn spec_pedal_grid(self) -> Option<Grid> {
        self.pedal_grid
    }

    pub closed spec fn spec_lcd_strip_size(self) -> Option<(u16, u16)> {
        self.lcd_strip_size
    }

    /// Resolves a product id against the registry: the model registered
    /// under it, or `InvalidProductID` when no row carries it.
    pub fn from_product_id(product_id: u16) -> (r: Result<Self, StreamDeckError>)
        ensures
            match spec_kind_of_product(product_id) {
                Some(kind) => r matches Ok(m) && m.is_row_of(kind),
                None => r == Err::<Model, StreamDeckError>(StreamDeckError::InvalidProductID(product_id)),
            },
    {
        let kind = if product_id == PRODUCT_ID_ORIGINAL {
            Kind::Original
        } else if product_id == PRODUCT_ID_ORIGINAL_V2 {
            Kind::OriginalV2
        } else if product_id == PRODUCT_ID_MINI {
            Kind::Mini
        } else if product_id == PRODUCT_ID_XL {
            Kind::XL
        } else if product_id == PRODUCT_ID_XL_V2 {
            Kind::XLV2
        } else if product_id == PRODUCT_ID_MK2 {
            Kind::MK2
        } else if product_id == PRODUCT_ID_MINI_MK2 {
            Kind::MiniMK2
        } else if product_id == PRODUCT_ID_PEDAL {
            Kind::Pedal
        } else if product_id == PRODUCT_ID_PLUS {
            Kind::Plus
        } else {
            return Err(StreamDeckError::InvalidProductID(product_id));
        };
        Ok(Model::of_kind(kind))
    }

    /// Resolves the identifier pair read at discovery: `InvalidVendorID`
    /// unless the vendor is the manufacturer, else as `from_product_id`.
    pub fn from_device_info(vendor_id: u16, product_id: u16) -> (r: Result<Self, StreamDeckError>)
        ensures
            vendor_id != VENDOR_ID ==> r == Err::<Model, StreamDeckError>(
                StreamDeckError::InvalidVendorID(vendor_id),
            ),
            vendor_id == VENDOR_ID ==> match spec_kind_of_product(product_id) {
                Some(kind) => r matches Ok(m) && m.is_row_of(kind),
                None => r == Err::<Model, StreamDeckError>(StreamDeckError::InvalidProductID(product_id)),
            },
    {
        if vendor_id != VENDOR_ID {
            return Err(StreamDeckError::InvalidVendorID(vendor_id));
        }
        Self::from_product_id(product_id)
    }

    /// The registry's row for a kind.
    pub fn of_kind(kind: Kind) -> (m: Self)
        ensures
            m == spec_model(kind),
            m.is_row_of(kind),
    {
        let (buttons, knobs, pedals, lcd) = match kind {
            Kind::Original | Kind::OriginalV2 | Kind::MK2 => (Grid::new(3, 5), None, None, None),
            Kind::Mini | Kind::MiniMK2 => (Grid::new(2, 3), None, None, None),
            Kind::XL | Kind::XLV2 => (Grid::new(4, 8), None, None, None),
            Kind::Pedal => (None, None, Grid::new(1, 3), None),
            Kind::Plus => (Grid::new(2, 4), Grid::new(1, 4), None, Some((800u16, 100u16))),
        };
        let product_id = match kind {
            Kind::Original => PRODUCT_ID_ORIGINAL,
            Kind::OriginalV2 => PRODUCT_ID_ORIGINAL_V2,
            Kind::Mini => PRODUCT_ID_MINI,
            Kind::XL => PRODUCT_ID_XL,
            Kind::XLV2 => PRODUCT_ID_XL_V2,
            Kind::MK2 => PRODUCT_ID_MK2,
            Kind::MiniMK2 => PRODUCT_ID_MINI_MK2,
            Kind::Pedal => PRODUCT_ID_PEDAL,
            Kind::Plus => PRODUCT_ID_PLUS,
        };
        Model {
            kind,
            vendor_id: VENDOR_ID,
            product_id,
            button_grid: buttons,
            knob_grid: knobs,
            pedal_grid: pedals,
            lcd_strip_size: lcd,
        }
    }

    pub fn kind(&self) -> (r: Kind)
        ensures
            r == self.spec_kind(),
    {
        self.kind
    }

    pub fn vendor_id(&self) -> (r: u16)
        ensures
            r == self.spec_vendor_id(),
    {
        self.vendor_id
    }

    pub fn product_id(&self) -> (r: u16)
        ensures
            r == self.spec_product_id(),
    {
        self.product_id
    }

    pub fn button_grid(&self) -> (r: Option<Grid>)
        ensures
            r == self.spec_button_grid(),
    {
        self.button_grid
    }

    pub fn knob_grid(&self) -> (r: Option<Grid>)
        ensures
            r == self.spec_knob_grid(),
    {
        self.knob_grid
    }

    pub fn pedal_grid(&self) -> (r: Option<Grid>)
        ensures
            r == self.spec_pedal_grid(),
    {
        self.pedal_grid
    }

    pub fn lcd_strip_size(&self) -> (r: Option<(u16, u16)>)
        ensures
            r == self.spec_lcd_strip_size(),
    {
        self.lcd_strip_size
    }

    /// Number of keys, zero for a model without a button grid.
    pub fn button_count(&self) -> (n: usize)
        requires
            self.wf(),
        ensures
            n == match self.spec_button_grid() {
                Some(g) => g.rows() * g.cols(),
                None => 0,
            },
    {
        match self.button_grid {
            Some(g) => g.count(),
            None => 0,
        }
    }

    /// Number of rotary encoders, zero for a model without any.
    pub fn encoder_count(&self) -> (n: usize)
        requires
            self.wf(),
        ensures
            n == match self.spec_knob_grid() {
                Some(g) => g.rows() * g.cols(),
                None => 0,
            },
    {
        match self.knob_grid {
            Some(g) => g.count(),
            None => 0,
        }
    }

    pub fn name(&self) -> (r: &'static str)
        ensures
            r@ == spec_kind_name(self.spec_kind()),
    {
        self.kind.name()
    }
}

/// The kind that an enumerated (vendor id, product id) pair resolves to.
pub open spec fn spec_resolve(ids: (u16, u16)) -> Option<Kind> {
    if ids.0 == VENDOR_ID {
        spec_kind_of_product(ids.1)
    } else {
        None
    }
}

/// The enumerated devices among the first `n` that the registry knows, as
/// (position in the enumeration, kind), in enumeration order.
pub open spec fn spec_supported(ids: Seq<(u16, u16)>, n: nat) -> Seq<(usize, Kind)>
    decreases n,
{
    if n == 0 {
        seq![]
    } else {
        spec_supported(ids, (n - 1) as nat) + match spec_resolve(ids[n - 1]) {
            Some(kind) => seq![(((n - 1) as int) as usize, kind)],
            None => seq![],
        }
    }
}

/// `found` lists, with their models, exactly the supported devices.
pub open spec fn lists_supported(ids: Seq<(u16, u16)>, found: Seq<(usize, Model)>) -> bool {
    let s = spec_supported(ids, ids.len());
    &&& found.len() == s.len()
    &&& forall|i: int|
        0 <= i < found.len() ==> (#[trigger] found[i]).0 == s[i].0 && found[i].1.is_row_of(s[i].1)
}

/// The supported devices among those enumerated, each given by its
/// (vendor id, product id): their positions in `ids` and their models.
pub fn list_devices(ids: &Vec<(u16, u16)>) -> (r: Vec<(usize, Model)>)
    ensures
        lists_supported(ids@, r@),
{
    let mut r: Vec<(usize, Model)> = Vec::new();
    let mut i: usize = 0;
    while i < ids.len()
        invariant
            i <= ids@.len(),
            lists_supported(ids@.subrange(0, i as int), r@),
            forall|k: int| 0 <= k < r@.len() ==> (#[trigger] r@[k]).0 < i,
        decreases ids.len() - i,
    {
        let (vendor_id, product_id) = ids[i];
        proof {
            lemma_supported_prefix(ids@, (i + 1) as nat);
            lemma_supported_prefix(ids@, i as nat);
        }
        match Model::from_device_info(vendor_id, product_id) {
            Ok(model) => {
                r.push((i, model));
            },
            Err(_) => {},
        }
        i = i + 1;
    }
    assert(ids@.subrange(0, ids@.len() as int) =~= ids@);
    r
}

proof fn lemma_supported_prefix(ids: Seq<(u16, u16)>, n: nat)
    requires
        n <= ids.len(),
    ensures
        spec_supported(ids.subrange(0, n as int), n) == spec_supported(ids, n),
    decreases n,
{
    if n > 0 {
        let m = (n - 1) as nat;
        lemma_supported_prefix(ids, m);
        lemma_supported_extend(ids.subrange(0, n as int), ids.subrange(0, m as int), m);
    }
}

proof fn lemma_supported_extend(long: Seq<(u16, u16)>, short: Seq<(u16, u16)>, n: nat)
    requires
        n <= short.len() <= long.len(),
        forall|k: int| 0 <= k < short.len() ==> long[k] == short[k],
    ensures
        spec_supported(long, n) == spec_supported(short, n),
    decreases n,
{
    if n > 0 {
        lemma_supported_extend(long, short, (n - 1) as nat);
    }
}

/// Picks the one supported device among those enumerated: its position and
/// model, `NoDeviceFound` when there is none and `MoreThanOneDevice` with
/// their number when there are several.
pub fn select_single_device(ids: &Vec<(u16, u16)>) -> (r: Result<(usize, Model), StreamDeckError>)
    ensures
        ({
            let s = spec_supported(ids@, ids@.len());
            &&& s.len() == 0 ==> r == Err::<(usize, Model), StreamDeckError>(
                StreamDeckError::NoDeviceFound,
            )
            &&& s.len() > 1 ==> r == Err::<(usize, Model), StreamDeckError>(
                StreamDeckError::MoreThanOneDevice(s.len() as usize),
            )
            &&& s.len() == 1 ==> (r matches Ok((i, m)) && i == s[0].0 && m.is_row_of(s[0].1))
        }),
{
    let found = list_devices(ids);
    if found.len() == 0 {
        Err(StreamDeckError::NoDeviceFound)
    } else if found.len() > 1 {
        Err(StreamDeckError::MoreThanOneDevice(found.len()))
    } else {
        Ok(found[0])
    }
}

/// The registry's row for a kind, as a value.
pub closed spec fn spec_model(kind: Kind) -> Model {
    let g = |h: usize, w: usize| Some(Grid { height: h, width: w });
    Model {
        kind,
        vendor_id: VENDOR_ID,
        product_id: spec_product_id(kind),
        button_grid: match kind {
            Kind::Original | Kind::OriginalV2 | Kind::MK2 => g(3, 5),
            Kind::Mini | Kind::MiniMK2 => g(2, 3),
            Kind::XL | Kind::XLV2 => g(4, 8),
            Kind::Pedal => None,
            Kind::Plus => g(2, 4),
        },
        knob_grid: match kind {
            Kind::Plus => g(1, 4),
            _ => None,
        },
        pedal_grid: match kind {
            Kind::Pedal => g(1, 3),
            _ => None,
        },
        lcd_strip_size: spec_lcd_strip_size(kind),
    }
}

/// The registry's row for a kind is that kind's row: its kind, the
/// manufacturer's vendor id, the kind's product id and capabilities.
pub proof fn lemma_spec_model(kind: Kind)
    ensures
        spec_model(kind).is_row_of(kind),
        spec_model(kind).wf(),
        spec_kind_of_product(spec_model(kind).spec_product_id()) == Some(kind),
{
}

impl From<Kind> for Model {
    fn from(kind: Kind) -> (m: Model) {
        Model::of_kind(kind)
    }
}

impl vstd::std_specs::convert::FromSpecImpl<Kind> for Model {
    open spec fn obeys_from_spec() -> bool {
        true
    }

    open spec fn from_spec(kind: Kind) -> Model {
        spec_model(kind)
    }
}

} // verus!
