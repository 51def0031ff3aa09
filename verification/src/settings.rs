//! The user's configuration: which events start and split a run.

use vstd::prelude::*;

verus! {

/// Named switches, read-only to the engine. Each item switch asks for a split
/// when the item it names first appears in the inventory.
#[derive(Clone, Copy, Debug, PartialEq, Eq)]
pub struct Settings {
    /// Start the timer when the in-game clock leaves zero.
    pub start: bool,
    /// Split when the ending is reached.
    pub end: bool,
    /// Split on every change of room.
    pub door_split: bool,
    /// Keno ticket.
    pub keno: bool,
    /// VIP Suzie card.
    pub susie: bool,
    /// VIP Nancy card.
    pub nancy: bool,
    /// VIP Cheryl card.
    pub cheryl: bool,
    /// Show stage key.
    pub stagekey: bool,
    /// VIP Leagan card.
    pub leagan: bool,
    /// Attraction key.
    pub attract: bool,
    /// Museum key.
    pub museum: bool,
    /// Desert Moon control room key.
    pub moon: bool,
    /// Key to the "Evil House".
    pub evil: bool,
    /// The spear key.
    pub spear: bool,
    /// Card disk C.
    pub cardc: bool,
    /// Card disk D.
    pub cardd: bool,
    /// VIP Sydney card.
    pub sydney: bool,
    /// No. 9 playing card.
    pub card9: bool,
    /// Blue clock hand.
    pub bluehand: bool,
    /// Red clock hand.
    pub redhand: bool,
    /// Panel no. 1.
    pub panel1: bool,
    /// Event room key.
    pub event: bool,
    /// Panel no. 2.
    pub panel2: bool,
    /// Panel no. 4.
    pub panel4: bool,
    /// Panel no. 6.
    pub panel6: bool,
    /// Y-shaped panel key.
    pub ykey: bool,
    /// Key to passageway D-4.
    pub d4: bool,
    /// Key to the shipping area parking lot.
    pub lot: bool,
    /// Key to the campground vehicle.
    pub camp: bool,
    /// Key to the small storage room.
    pub small: bool,
    /// Forklift key.
    pub fork: bool,
    /// Log house key.
    pub log: bool,
    /// Key to the "Guesthouse".
    pub guest: bool,
    /// Shower room key.
    pub shower: bool,
    /// Key to the chainsaw shelf.
    pub shelf: bool,
    /// Bourbon.
    pub bourbon: bool,
    /// Marlintown gate key.
    pub marlin: bool,
    /// Chainsaw.
    pub chain: bool,
    /// Observation room key.
    pub observ: bool,
    /// Sterilization passageway key.
    pub sterile: bool,
    /// M82A1.
    pub m8: bool,
    /// Code "SIN" key.
    pub sin: bool,
    /// Fuse.
    pub fuse: bool,
}

impl Settings {
    /// The configuration before the user has changed anything: the run is
    /// started and ended automatically, and nothing else splits.
    pub open spec fn initial() -> Settings {
        Settings {
            start: true,
            end: true,
            door_split: false,
            keno: false,
            susie: false,
            nancy: false,
            cheryl: false,
            stagekey: false,
            leagan: false,
            attract: false,
            museum: false,
            moon: false,
            evil: false,
            spear: false,
            cardc: false,
            cardd: false,
            sydney: false,
            card9: false,
            bluehand: false,
            redhand: false,
            panel1: false,
            event: false,
            panel2: false,
            panel4: false,
            panel6: false,
            ykey: false,
            d4: false,
            lot: false,
            camp: false,
            small: false,
            fork: false,
            log: false,
            guest: false,
            shower: false,
            shelf: false,
            bourbon: false,
            marlin: false,
            chain: false,
            observ: false,
            sterile: false,
            m8: false,
            sin: false,
            fuse: false,
        }
    }

    /// Whether picking up the item with the id `item` asks for a split.
    pub open spec fn splits_on(self, item: u16) -> bool {
        if item == 309 {
            self.keno
        } else if item == 303 {
            self.susie
        } else if item == 304 {
            self.nancy
        } else if item == 302 {
            self.cheryl
        } else if item == 310 {
            self.stagekey
        } else if item == 305 {
            self.leagan
        } else if item == 335 {
            self.attract
        } else if item == 336 {
            self.museum
        } else if item == 337 {
            self.moon
        } else if item == 340 {
            self.evil
        } else if item == 308 {
            self.spear
        } else if item == 338 {
            self.cardc
        } else if item == 339 {
            self.cardd
        } else if item == 306 {
            self.sydney
        } else if item == 311 {
            self.card9
        } else if item == 331 {
            self.bluehand
        } else if item == 332 {
            self.redhand
        } else if item == 359 {
            self.panel1
        } else if item == 363 {
            self.event
        } else if item == 364 {
            self.panel2
        } else if item == 366 {
            self.panel4
        } else if item == 368 {
            self.panel6
        } else if item == 343 {
            self.ykey
        } else if item == 383 {
            self.d4
        } else if item == 385 {
            self.lot
        } else if item == 392 {
            self.camp
        } else if item == 393 {
            self.small
        } else if item == 434 {
            self.fork
        } else if item == 408 {
            self.log
        } else if item == 435 {
            self.guest
        } else if item == 413 {
            self.shower
        } else if item == 403 {
            self.shelf
        } else if item == 415 {
            self.bourbon
        } else if item == 405 {
            self.marlin
        } else if item == 404 {
            self.chain
        } else if item == 428 {
            self.observ
        } else if item == 429 {
            self.sterile
        } else if item == 111 {
            self.m8
        } else if item == 423 {
            self.sin
        } else if item == 430 {
            self.fuse
        } else {
            false
        }
    }

    /// Whether picking up the item with the id `item` asks for a split.
    pub fn is_split_item(&self, item: u16) -> (r: bool)
        ensures
            r == self.splits_on(item),
    {
        match item {
            309 => self.keno,
            303 => self.susie,
            304 => self.nancy,
            302 => self.cheryl,
            310 => self.stagekey,
            305 => self.leagan,
            335 => self.attract,
            336 => self.museum,
            337 => self.moon,
            340 => self.evil,
            308 => self.spear,
            338 => self.cardc,
            339 => self.cardd,
            306 => self.sydney,
            311 => self.card9,
            331 => self.bluehand,
            332 => self.redhand,
            359 => self.panel1,
            363 => self.event,
            364 => self.panel2,
            366 => self.panel4,
            368 => self.panel6,
            343 => self.ykey,
            383 => self.d4,
            385 => self.lot,
            392 => self.camp,
            393 => self.small,
            434 => self.fork,
            408 => self.log,
            435 => self.guest,
            413 => self.shower,
            403 => self.shelf,
            415 => self.bourbon,
            405 => self.marlin,
            404 => self.chain,
            428 => self.observ,
            429 => self.sterile,
            111 => self.m8,
            423 => self.sin,
            430 => self.fuse,
            _ => false,
        }
    }
}

impl Default for Settings {
    fn default() -> (s: Self)
        ensures
            s == Settings::initial(),
    {
        Settings {
            start: true,
            end: true,
            door_split: false,
            keno: false,
            susie: false,
            nancy: false,
            cheryl: false,
            stagekey: false,
            leagan: false,
            attract: false,
            museum: false,
            moon: false,
            evil: false,
            spear: false,
            cardc: false,
            cardd: false,
            sydney: false,
            card9: false,
            bluehand: false,
            redhand: false,
            panel1: false,
            event: false,
            panel2: false,
            panel4: false,
            panel6: false,
            ykey: false,
            d4: false,
            lot: false,
            camp: false,
            small: false,
            fork: false,
            log: false,
            guest: false,
            shower: false,
            shelf: false,
            bourbon: false,
            marlin: false,
            chain: false,
            observ: false,
            sterile: false,
            m8: false,
            sin: false,
            fuse: false,
        }
    }
}

} // verus!
