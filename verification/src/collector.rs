//! The catalogue of collectors that a query can name.

use vstd::prelude::*;

use crate::text::has_nul;

verus! {

/// A collector of one of the two projects.
#[derive(Debug, PartialEq, Eq, Hash, Clone, Copy, Structural)]
pub enum Collector {
    /// A Route Views collector: a RIB every two hours, updates every
    /// fifteen minutes.
    RouteView(RouteView),
    /// A collector of the RIPE NCC Routing Information Service: a RIB every
    /// eight hours, updates every five minutes.
    RipeNcc(RipeNcc),
}

/// The collectors of the Route Views project.
#[derive(Debug, PartialEq, Eq, Hash, Clone, Copy, Structural)]
pub enum RouteView {
    /// AMS-IX, Amsterdam, Netherlands.
    Amsix,
    /// BDIX, Dhaka, Bangladesh.
    Bdix,
    /// BKNIX, Bangkok, Thailand.
    Bknix,
    /// Equinix CH1, Chicago, United States.
    Chicago,
    /// NIC Chile, Santiago, Chile.
    Chile,
    /// Equinix DC, Ashburn, United States.
    Eqix,
    /// FL-IX, Atlanta, United States.
    Flix,
    /// IX.br, Fortaleza, Brazil.
    Fortaleza,
    /// GIXA, Accra, Ghana.
    Gixa,
    /// GOREX, Guam.
    Gorex,
    /// PIT Chile, Santiago, Chile.
    Isc,
    /// KIXP, Nairobi, Kenya.
    Kixp,
    /// LINX, London, United Kingdom.
    Linx,
    /// FD-IX, Indianapolis, United States.
    Mwix,
    /// NAPAfrica, Johannesburg, South Africa.
    Napafrica,
    /// NWAX, Portland, United States.
    Nwax,
    /// DE-CIX New York, United States.
    Ny,
    /// WAIX, Perth, Australia.
    Perth,
    /// Peru IX, Lima, Peru.
    Peru,
    /// PhOpenIX, Quezon City, Philippines.
    Phoix,
    /// IX.br, Rio de Janeiro, Brazil.
    Rio,
    /// SFMIX, San Francisco, United States.
    Sfmix,
    /// Equinix SG1, Singapore.
    Sg,
    /// SOX, Belgrade, Serbia.
    Soxrs,
    /// Equinix SYD1, Sydney, Australia.
    Sydney,
    /// TELXATL, Atlanta, United States.
    Telxatl,
    /// UAE-IX, Dubai, United Arab Emirates.
    Uaeix,
    /// DIX-IE, Tokyo, Japan.
    Wide,
    /// Second collector at the University of Oregon, Eugene.
    View2,
    /// Second collector at IX.br, Sao Paulo, Brazil.
    View2SaoPaulo,
    /// Third collector at the University of Oregon, Eugene.
    View3,
    /// Fourth collector at the University of Oregon, Eugene.
    View4,
    /// Fifth collector at the University of Oregon, Eugene.
    View5,
    /// Sixth collector at the University of Oregon, Eugene.
    View6,
}

/// The collectors of the RIPE NCC Routing Information Service.
#[derive(Debug, PartialEq, Eq, Hash, Clone, Copy, Structural)]
pub enum RipeNcc {
    /// RRC00, Amsterdam, multihop.
    Amsterdam,
    /// RRC01, London, at LINX and LONAP.
    London,
    /// RRC03, Amsterdam, at AMS-IX and NL-IX.
    AmsterdamIx,
    /// RRC04, Geneva, at CIXP.
    Geneva,
    /// RRC05, Vienna, at VIX.
    Vienna,
    /// RRC06, Otemachi, at DIX-IE and JPIX.
    Otemachi,
    /// RRC07, Stockholm, at Netnod.
    Stockholm,
    /// RRC10, Milan, at MIX.
    Milan,
    /// RRC11, New York, at NYIIX.
    NewYork,
    /// RRC12, Frankfurt, at DE-CIX.
    Frankfurt,
    /// RRC13, Moscow, at MSK-IX.
    Moscow,
    /// RRC14, Palo Alto, at PAIX.
    PaloAlto,
    /// RRC15, Sao Paulo, at PTTMetro-SP.
    SaoPaolo,
    /// RRC16, Miami, at Equinix Miami.
    Miami,
    /// RRC18, Barcelona, at CATNIX.
    Barcelona,
    /// RRC19, Johannesburg, at NAP Africa.
    Johannesburg,
    /// RRC20, Zurich, at SwissIX.
    Zurich,
    /// RRC21, Paris, at France-IX.
    Paris,
    /// RRC22, Bucharest, at InterLAN.
    Bucharest,
    /// RRC23, Singapore, at Equinix Singapore.
    Singapore,
    /// RRC24, Montevideo, multihop.
    Montevideo,
    /// RRC25, Amsterdam, multihop.
    Amsterdam2,
    /// RRC26, Dubai, at UAE-IX.
    Dubai,
}

impl Collector {
    /// The name under which the data source knows the collector.
    pub open spec fn spec_name(self) -> Seq<char> {
        match self {
            Collector::RouteView(rv) => rv.spec_name(),
            Collector::RipeNcc(rrc) => rrc.spec_name(),
        }
    }

    /// The name under which the data source knows the collector.
    pub fn name(&self) -> (s: &'static str)
        ensures
            s@ == self.spec_name(),
            !has_nul(s@),
    {
        match self {
            Collector::RouteView(rv) => rv.name(),
            Collector::RipeNcc(rrc) => rrc.name(),
        }
    }
}

impl RouteView {
    /// The name under which the data source knows the collector.
    pub open spec fn spec_name(self) -> Seq<char> {
        match self {
            RouteView::Amsix => "route-views.amsix"@,
            RouteView::Bdix => "route-views.bdix"@,
            RouteView::Bknix => "route-views.bknix"@,
            RouteView::Chicago => "route-views.chicago"@,
            RouteView::Chile => "route-views.chile"@,
            RouteView::Eqix => "route-views.eqix"@,
            RouteView::Flix => "route-views.flix"@,
            RouteView::Fortaleza => "route-views.fortaleza"@,
            RouteView::Gixa => "route-views.gixa"@,
            RouteView::Gorex => "route-views.gorex"@,
            RouteView::Isc => "route-views.isc"@,
            RouteView::Kixp => "route-views.kixp"@,
            RouteView::Linx => "route-views.linx"@,
            RouteView::Mwix => "route-views.mwix"@,
            RouteView::Napafrica => "route-views.napafrica"@,
            RouteView::Nwax => "route-views.nwax"@,
            RouteView::Ny => "route-views.ny"@,
            RouteView::Perth => "route-views.perth"@,
            RouteView::Peru => "route-views.peru"@,
            RouteView::Phoix => "route-views.phoix"@,
            RouteView::Rio => "route-views.rio"@,
            RouteView::Sfmix => "route-views.sfmix"@,
            RouteView::Sg => "route-views.sg"@,
            RouteView::Soxrs => "route-views.soxrs"@,
            RouteView::Sydney => "route-views.sydney"@,
            RouteView::Telxatl => "route-views.telxatl"@,
            RouteView::Uaeix => "route-views.uaeix"@,
            RouteView::Wide => "route-views.wide"@,
            RouteView::View2 => "route-views2"@,
            RouteView::View2SaoPaulo => "route-views2saopaulo"@,
            RouteView::View3 => "route-views3"@,
            RouteView::View4 => "route-views4"@,
            RouteView::View5 => "route-views5"@,
            RouteView::View6 => "route-views6"@,
        }
    }

    /// The name under which the data source knows the collector.
    pub fn name(&self) -> (s: &'static str)
        ensures
            s@ == self.spec_name(),
            !has_nul(s@),
    {
        proof {
            self.lemma_name_has_no_nul();
        }
        match self {
            RouteView::Amsix => "route-views.amsix",
            RouteView::Bdix => "route-views.bdix",
            RouteView::Bknix => "route-views.bknix",
            RouteView::Chicago => "route-views.chicago",
            RouteView::Chile => "route-views.chile",
            RouteView::Eqix => "route-views.eqix",
            RouteView::Flix => "route-views.flix",
            RouteView::Fortaleza => "route-views.fortaleza",
            RouteView::Gixa => "route-views.gixa",
            RouteView::Gorex => "route-views.gorex",
            RouteView::Isc => "route-views.isc",
            RouteView::Kixp => "route-views.kixp",
            RouteView::Linx => "route-views.linx",
            RouteView::Mwix => "route-views.mwix",
            RouteView::Napafrica => "route-views.napafrica",
            RouteView::Nwax => "route-views.nwax",
            RouteView::Ny => "route-views.ny",
            RouteView::Perth => "route-views.perth",
            RouteView::Peru => "route-views.peru",
            RouteView::Phoix => "route-views.phoix",
            RouteView::Rio => "route-views.rio",
            RouteView::Sfmix => "route-views.sfmix",
            RouteView::Sg => "route-views.sg",
            RouteView::Soxrs => "route-views.soxrs",
            RouteView::Sydney => "route-views.sydney",
            RouteView::Telxatl => "route-views.telxatl",
            RouteView::Uaeix => "route-views.uaeix",
            RouteView::Wide => "route-views.wide",
            RouteView::View2 => "route-views2",
            RouteView::View2SaoPaulo => "route-views2saopaulo",
            RouteView::View3 => "route-views3",
            RouteView::View4 => "route-views4",
            RouteView::View5 => "route-views5",
            RouteView::View6 => "route-views6",
        }
    }

    /// No collector name holds a NUL character.
    pub proof fn lemma_name_has_no_nul(self)
        ensures
            !has_nul(self.spec_name()),
    {
        reveal_strlit("route-views.amsix");
        reveal_strlit("route-views.bdix");
        reveal_strlit("route-views.bknix");
        reveal_strlit("route-views.chicago");
        reveal_strlit("route-views.chile");
        reveal_strlit("route-views.eqix");
        reveal_strlit("route-views.flix");
        reveal_strlit("route-views.fortaleza");
        reveal_strlit("route-views.gixa");
        reveal_strlit("route-views.gorex");
        reveal_strlit("route-views.isc");
        reveal_strlit("route-views.kixp");
        reveal_strlit("route-views.linx");
        reveal_strlit("route-views.mwix");
        reveal_strlit("route-views.napafrica");
        reveal_strlit("route-views.nwax");
        reveal_strlit("route-views.ny");
        reveal_strlit("route-views.perth");
        reveal_strlit("route-views.peru");
        reveal_strlit("route-views.phoix");
        reveal_strlit("route-views.rio");
        reveal_strlit("route-views.sfmix");
        reveal_strlit("route-views.sg");
        reveal_strlit("route-views.soxrs");
        reveal_strlit("route-views.sydney");
        reveal_strlit("route-views.telxatl");
        reveal_strlit("route-views.uaeix");
        reveal_strlit("route-views.wide");
        reveal_strlit("route-views2");
        reveal_strlit("route-views2saopaulo");
        reveal_strlit("route-views3");
        reveal_strlit("route-views4");
        reveal_strlit("route-views5");
        reveal_strlit("route-views6");
    }
}

impl RipeNcc {
    /// The name under which the data source knows the collector.
    pub open spec fn spec_name(self) -> Seq<char> {
        match self {
            RipeNcc::Amsterdam => "rrc00"@,
            RipeNcc::London => "rrc01"@,
            RipeNcc::AmsterdamIx => "rrc03"@,
            RipeNcc::Geneva => "rrc04"@,
            RipeNcc::Vienna => "rrc05"@,
            RipeNcc::Otemachi => "rrc06"@,
            RipeNcc::Stockholm => "rrc07"@,
            RipeNcc::Milan => "rrc10"@,
            RipeNcc::NewYork => "rrc11"@,
            RipeNcc::Frankfurt => "rrc12"@,
            RipeNcc::Moscow => "rrc13"@,
            RipeNcc::PaloAlto => "rrc14"@,
            RipeNcc::SaoPaolo => "rrc15"@,
            RipeNcc::Miami => "rrc16"@,
            RipeNcc::Barcelona => "rrc18"@,
            RipeNcc::Johannesburg => "rrc19"@,
            RipeNcc::Zurich => "rrc20"@,
            RipeNcc::Paris => "rrc21"@,
            RipeNcc::Bucharest => "rrc22"@,
            RipeNcc::Singapore => "rrc23"@,
            RipeNcc::Montevideo => "rrc24"@,
            RipeNcc::Amsterdam2 => "rrc25"@,
            RipeNcc::Dubai => "rrc26"@,
        }
    }

    /// The name under which the data source knows the collector.
    pub fn name(&self) -> (s: &'static str)
        ensures
            s@ == self.spec_name(),
            !has_nul(s@),
    {
        proof {
            self.lemma_name_has_no_nul();
        }
        match self {
            RipeNcc::Amsterdam => "rrc00",
            RipeNcc::London => "rrc01",
            RipeNcc::AmsterdamIx => "rrc03",
            RipeNcc::Geneva => "rrc04",
            RipeNcc::Vienna => "rrc05",
            RipeNcc::Otemachi => "rrc06",
            RipeNcc::Stockholm => "rrc07",
            RipeNcc::Milan => "rrc10",
            RipeNcc::NewYork => "rrc11",
            RipeNcc::Frankfurt => "rrc12",
            RipeNcc::Moscow => "rrc13",
            RipeNcc::PaloAlto => "rrc14",
            RipeNcc::SaoPaolo => "rrc15",
            RipeNcc::Miami => "rrc16",
            RipeNcc::Barcelona => "rrc18",
            RipeNcc::Johannesburg => "rrc19",
            RipeNcc::Zurich => "rrc20",
            RipeNcc::Paris => "rrc21",
            RipeNcc::Bucharest => "rrc22",
            RipeNcc::Singapore => "rrc23",
            RipeNcc::Montevideo => "rrc24",
            RipeNcc::Amsterdam2 => "rrc25",
            RipeNcc::Dubai => "rrc26",
        }
    }

    /// No collector name holds a NUL character.
    pub proof fn lemma_name_has_no_nul(self)
        ensures
            !has_nul(self.spec_name()),
    {
        reveal_strlit("rrc00");
        reveal_strlit("rrc01");
        reveal_strlit("rrc03");
        reveal_strlit("rrc04");
        reveal_strlit("rrc05");
        reveal_strlit("rrc06");
        reveal_strlit("rrc07");
        reveal_strlit("rrc10");
        reveal_strlit("rrc11");
        reveal_strlit("rrc12");
        reveal_strlit("rrc13");
        reveal_strlit("rrc14");
        reveal_strlit("rrc15");
        reveal_strlit("rrc16");
        reveal_strlit("rrc18");
        reveal_strlit("rrc19");
        reveal_strlit("rrc20");
        reveal_strlit("rrc21");
        reveal_strlit("rrc22");
        reveal_strlit("rrc23");
        reveal_strlit("rrc24");
        reveal_strlit("rrc25");
        reveal_strlit("rrc26");
    }
}

} // verus!
