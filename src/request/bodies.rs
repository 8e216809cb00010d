//! The registry of major bodies: each named body has one integer code.

use vstd::prelude::*;

verus! {

/// An integer that is the code of no body in the registry.
#[derive(Debug, Clone, Copy, PartialEq, Eq, Structural, PartialOrd, Ord)]
pub struct InvalidBodyCode(pub i64);

/// Planets, barycenters, natural satellites and Lagrange points, each with
/// its code in the service's numbering. Unnamed objects are written
/// S+Designation, e.g. `S2010J1`. Variants stand in the order of their codes.
#[allow(non_camel_case_types)]
#[derive(Debug, Clone, Copy, PartialEq, Eq, Structural, PartialOrd, Ord)]
pub enum MajorBody {
    SolarSystemBary,
    MercuryBary,
    VenusBary,
    EarthMoonBary,
    MarsBary,
    JupiterBary,
    SaturnBary,
    UranusBary,
    NeptuneBary,
    PlutoBary,
    Sun,
    SEMB_L1,
    SEMB_L2,
    SEMB_L4,
    SEMB_L5,
    Mercury,
    Venus,
    Moon,
    Earth,
    Phobos,
    Deimos,
    Mars,
    Io,
    Europa,
    Ganymede,
    Callisto,
    Amalthea,
    Himalia,
    Elara,
    Pasiphae,
    Sinope,
    Lysithea,
    Carme,
    Ananke,
    Leda,
    Thebe,
    Adrastea,
    Metis,
    Callirrhoe,
    Themisto,
    Megaclite,
    Taygete,
    Chaldene,
    Harpalyke,
    Kalyke,
    Iocaste,
    Erinome,
    Isonoe,
    Praxidike,
    Autonoe,
    Thyone,
    Hermippe,
    Aitne,
    Eurydome,
    Euanthe,
    Euporie,
    Orthosie,
    Sponde,
    Kale,
    Pasithee,
    Hegemone,
    Mneme,
    Aoede,
    Thelxinoe,
    Arche,
    Kallichore,
    Helike,
    Carpo,
    Eukelade,
    Cyllene,
    Kore,
    Herse,
    S2010J1,
    S2010J2,
    Dia,
    S2016J1,
    S2003J18,
    S2011J2,
    Eirene,
    Philophrosyne,
    S2017J1,
    Eupheme,
    S2003J19,
    Valetudo,
    S2017J2,
    S2017J3,
    Pandia,
    S2017J5,
    S2017J6,
    S2017J7,
    S2017J8,
    S2017J9,
    Ersa,
    S2011J1,
    Jupiter,
    Mimas,
    Enceladus,
    Tethys,
    Dione,
    Rhea,
    Titan,
    Hyperion,
    Iapetus,
    Phoebe,
    Janus,
    Epimetheus,
    Helene,
    Telesto,
    Calypso,
    Atlas,
    Prometheus,
    Pandora,
    Pan,
    Ymir,
    Paaliaq,
    Tarvos,
    Ijiraq,
    Suttungr,
    Kiviuq,
    Mundilfari,
    Albiorix,
    Skathi,
    Erriapus,
    Siarnaq,
    Thrymr,
    Narvi,
    Methone,
    Pallene,
    Polydeuces,
    Daphnis,
    Aegir,
    Bebhionn,
    Bergelmir,
    Bestla,
    Farbauti,
    Fenrir,
    Fornjot,
    Hati,
    Hyrrokkin,
    Kari,
    Loge,
    Skoll,
    Surtur,
    Anthe,
    Jarnsaxa,
    Greip,
    Tarqeq,
    Aegaeon,
    Gridr,
    Angrboda,
    Skrymir,
    Gerd,
    S2004S26,
    Eggther,
    S2004S29,
    Beli,
    Gunnlod,
    Thiazzi,
    S2004S34,
    Alvaldi,
    Geirrod,
    Saturn,
    Ariel,
    Umbriel,
    Titania,
    Oberon,
    Miranda,
    Cordelia,
    Ophelia,
    Bianca,
    Cressida,
    Desdemona,
    Juliet,
    Portia,
    Rosalind,
    Belinda,
    Puck,
    Caliban,
    Sycorax,
    Prospero,
    Setebos,
    Stephano,
    Trinculo,
    Francisco,
    Margaret,
    Ferdinand,
    Perdita,
    Mab,
    Cupid,
    Uranus,
    Triton,
    Nereid,
    Naiad,
    Thalassa,
    Despina,
    Galatea,
    Larissa,
    Proteus,
    Halimede,
    Psamathe,
    Sao,
    Laomedeia,
    Neso,
    Hippocamp,
    Neptune,
    Charon,
    Nix,
    Hydra,
    Kerberos,
    Styx,
    Pluto,
    EM_L1,
    EM_L2,
    EM_L4,
    EM_L5,
    S2003J2,
    S2003J4,
    S2003J9,
    S2003J10,
    S2003J12,
    S2003J16,
    S2003J23,
    S2003J24,
    S2004S31,
    S2004S24,
    S2004S28,
    S2004S21,
    S2004S36,
    S2004S37,
    S2004S39,
    S2004S7,
    S2004S12,
    S2004S13,
    S2004S17,
    S2006S1,
    S2006S3,
    S2007S2,
    S2007S3,
    S2019S1,
}

impl MajorBody {
    /// The code of the body.
    pub open spec fn spec_code(self) -> u32 {
        match self {
            MajorBody::SolarSystemBary => 0,
            MajorBody::MercuryBary => 1,
            MajorBody::VenusBary => 2,
            MajorBody::EarthMoonBary => 3,
            MajorBody::MarsBary => 4,
            MajorBody::JupiterBary => 5,
            MajorBody::SaturnBary => 6,
            MajorBody::UranusBary => 7,
            MajorBody::NeptuneBary => 8,
            MajorBody::PlutoBary => 9,
            MajorBody::Sun => 10,
            MajorBody::SEMB_L1 => 31,
            MajorBody::SEMB_L2 => 32,
            MajorBody::SEMB_L4 => 34,
            MajorBody::SEMB_L5 => 35,
            MajorBody::Mercury => 199,
            MajorBody::Venus => 299,
            MajorBody::Moon => 301,
            MajorBody::Earth => 399,
            MajorBody::Phobos => 401,
            MajorBody::Deimos => 402,
            MajorBody::Mars => 499,
            MajorBody::Io => 501,
            MajorBody::Europa => 502,
            MajorBody::Ganymede => 503,
            MajorBody::Callisto => 504,
            MajorBody::Amalthea => 505,
            MajorBody::Himalia => 506,
            MajorBody::Elara => 507,
            MajorBody::Pasiphae => 508,
            MajorBody::Sinope => 509,
            MajorBody::Lysithea => 510,
            MajorBody::Carme => 511,
            MajorBody::Ananke => 512,
            MajorBody::Leda => 513,
            MajorBody::Thebe => 514,
            MajorBody::Adrastea => 515,
            MajorBody::Metis => 516,
            MajorBody::Callirrhoe => 517,
            MajorBody::Themisto => 518,
            MajorBody::Megaclite => 519,
            MajorBody::Taygete => 520,
            MajorBody::Chaldene => 521,
            MajorBody::Harpalyke => 522,
            MajorBody::Kalyke => 523,
            MajorBody::Iocaste => 524,
            MajorBody::Erinome => 525,
            MajorBody::Isonoe => 526,
            MajorBody::Praxidike => 527,
            MajorBody::Autonoe => 528,
            MajorBody::Thyone => 529,
            MajorBody::Hermippe => 530,
            MajorBody::Aitne => 531,
            MajorBody::Eurydome => 532,
            MajorBody::Euanthe => 533,
            MajorBody::Euporie => 534,
            MajorBody::Orthosie => 535,
            MajorBody::Sponde => 536,
            MajorBody::Kale => 537,
            MajorBody::Pasithee => 538,
            MajorBody::Hegemone => 539,
            MajorBody::Mneme => 540,
            MajorBody::Aoede => 541,
            MajorBody::Thelxinoe => 542,
            MajorBody::Arche => 543,
            MajorBody::Kallichore => 544,
            MajorBody::Helike => 545,
            MajorBody::Carpo => 546,
            MajorBody::Eukelade => 547,
            MajorBody::Cyllene => 548,
            MajorBody::Kore => 549,
            MajorBody::Herse => 550,
            MajorBody::S2010J1 => 551,
            MajorBody::S2010J2 => 552,
            MajorBody::Dia => 553,
            MajorBody::S2016J1 => 554,
            MajorBody::S2003J18 => 555,
            MajorBody::S2011J2 => 556,
            MajorBody::Eirene => 557,
            MajorBody::Philophrosyne => 558,
            MajorBody::S2017J1 => 559,
            MajorBody::Eupheme => 560,
            MajorBody::S2003J19 => 561,
            MajorBody::Valetudo => 562,
            MajorBody::S2017J2 => 563,
            MajorBody::S2017J3 => 564,
            MajorBody::Pandia => 565,
            MajorBody::S2017J5 => 566,
            MajorBody::S2017J6 => 567,
            MajorBody::S2017J7 => 568,
            MajorBody::S2017J8 => 569,
            MajorBody::S2017J9 => 570,
            MajorBody::Ersa => 571,
            MajorBody::S2011J1 => 572,
            MajorBody::Jupiter => 599,
            MajorBody::Mimas => 601,
            MajorBody::Enceladus => 602,
            MajorBody::Tethys => 603,
            MajorBody::Dione => 604,
            MajorBody::Rhea => 605,
            MajorBody::Titan => 606,
            MajorBody::Hyperion => 607,
            MajorBody::Iapetus => 608,
            MajorBody::Phoebe => 609,
            MajorBody::Janus => 610,
            MajorBody::Epimetheus => 611,
            MajorBody::Helene => 612,
            MajorBody::Telesto => 613,
            MajorBody::Calypso => 614,
            MajorBody::Atlas => 615,
            MajorBody::Prometheus => 616,
            MajorBody::Pandora => 617,
            MajorBody::Pan => 618,
            MajorBody::Ymir => 619,
            MajorBody::Paaliaq => 620,
            MajorBody::Tarvos => 621,
            MajorBody::Ijiraq => 622,
            MajorBody::Suttungr => 623,
            MajorBody::Kiviuq => 624,
            MajorBody::Mundilfari => 625,
            MajorBody::Albiorix => 626,
            MajorBody::Skathi => 627,
            MajorBody::Erriapus => 628,
            MajorBody::Siarnaq => 629,
            MajorBody::Thrymr => 630,
            MajorBody::Narvi => 631,
            MajorBody::Methone => 632,
            MajorBody::Pallene => 633,
            MajorBody::Polydeuces => 634,
            MajorBody::Daphnis => 635,
            MajorBody::Aegir => 636,
            MajorBody::Bebhionn => 637,
            MajorBody::Bergelmir => 638,
            MajorBody::Bestla => 639,
            MajorBody::Farbauti => 640,
            MajorBody::Fenrir => 641,
            MajorBody::Fornjot => 642,
            MajorBody::Hati => 643,
            MajorBody::Hyrrokkin => 644,
            MajorBody::Kari => 645,
            MajorBody::Loge => 646,
            MajorBody::Skoll => 647,
            MajorBody::Surtur => 648,
            MajorBody::Anthe => 649,
            MajorBody::Jarnsaxa => 650,
            MajorBody::Greip => 651,
            MajorBody::Tarqeq => 652,
            MajorBody::Aegaeon => 653,
            MajorBody::Gridr => 654,
            MajorBody::Angrboda => 655,
            MajorBody::Skrymir => 656,
            MajorBody::Gerd => 657,
            MajorBody::S2004S26 => 658,
            MajorBody::Eggther => 659,
            MajorBody::S2004S29 => 660,
            MajorBody::Beli => 661,
            MajorBody::Gunnlod => 662,
            MajorBody::Thiazzi => 663,
            MajorBody::S2004S34 => 664,
            MajorBody::Alvaldi => 665,
            MajorBody::Geirrod => 666,
            MajorBody::Saturn => 699,
            MajorBody::Ariel => 701,
            MajorBody::Umbriel => 702,
            MajorBody::Titania => 703,
            MajorBody::Oberon => 704,
            MajorBody::Miranda => 705,
            MajorBody::Cordelia => 706,
            MajorBody::Ophelia => 707,
            MajorBody::Bianca => 708,
            MajorBody::Cressida => 709,
            MajorBody::Desdemona => 710,
            MajorBody::Juliet => 711,
            MajorBody::Portia => 712,
            MajorBody::Rosalind => 713,
            MajorBody::Belinda => 714,
            MajorBody::Puck => 715,
            MajorBody::Caliban => 716,
            MajorBody::Sycorax => 717,
            MajorBody::Prospero => 718,
            MajorBody::Setebos => 719,
            MajorBody::Stephano => 720,
            MajorBody::Trinculo => 721,
            MajorBody::Francisco => 722,
            MajorBody::Margaret => 723,
            MajorBody::Ferdinand => 724,
            MajorBody::Perdita => 725,
            MajorBody::Mab => 726,
            MajorBody::Cupid => 727,
            MajorBody::Uranus => 799,
            MajorBody::Triton => 801,
            MajorBody::Nereid => 802,
            MajorBody::Naiad => 803,
            MajorBody::Thalassa => 804,
            MajorBody::Despina => 805,
            MajorBody::Galatea => 806,
            MajorBody::Larissa => 807,
            MajorBody::Proteus => 808,
            MajorBody::Halimede => 809,
            MajorBody::Psamathe => 810,
            MajorBody::Sao => 811,
            MajorBody::Laomedeia => 812,
            MajorBody::Neso => 813,
            MajorBody::Hippocamp => 814,
            MajorBody::Neptune => 899,
            MajorBody::Charon => 901,
            MajorBody::Nix => 902,
            MajorBody::Hydra => 903,
            MajorBody::Kerberos => 904,
            MajorBody::Styx => 905,
            MajorBody::Pluto => 999,
            MajorBody::EM_L1 => 3011,
            MajorBody::EM_L2 => 3012,
            MajorBody::EM_L4 => 3014,
            MajorBody::EM_L5 => 3015,
            MajorBody::S2003J2 => 55501,
            MajorBody::S2003J4 => 55502,
            MajorBody::S2003J9 => 55503,
            MajorBody::S2003J10 => 55504,
            MajorBody::S2003J12 => 55505,
            MajorBody::S2003J16 => 55506,
            MajorBody::S2003J23 => 55507,
            MajorBody::S2003J24 => 55508,
            MajorBody::S2004S31 => 65067,
            MajorBody::S2004S24 => 65070,
            MajorBody::S2004S28 => 65077,
            MajorBody::S2004S21 => 65079,
            MajorBody::S2004S36 => 65081,
            MajorBody::S2004S37 => 65082,
            MajorBody::S2004S39 => 65084,
            MajorBody::S2004S7 => 65085,
            MajorBody::S2004S12 => 65086,
            MajorBody::S2004S13 => 65087,
            MajorBody::S2004S17 => 65088,
            MajorBody::S2006S1 => 65089,
            MajorBody::S2006S3 => 65090,
            MajorBody::S2007S2 => 65091,
            MajorBody::S2007S3 => 65092,
            MajorBody::S2019S1 => 65093,
        }
    }

    /// The symbolic name of the body.
    pub open spec fn spec_name(self) -> Seq<char> {
        match self {
            MajorBody::SolarSystemBary => "SolarSystemBary"@,
            MajorBody::MercuryBary => "MercuryBary"@,
            MajorBody::VenusBary => "VenusBary"@,
            MajorBody::EarthMoonBary => "EarthMoonBary"@,
            MajorBody::MarsBary => "MarsBary"@,
            MajorBody::JupiterBary => "JupiterBary"@,
            MajorBody::SaturnBary => "SaturnBary"@,
            MajorBody::UranusBary => "UranusBary"@,
            MajorBody::NeptuneBary => "NeptuneBary"@,
            MajorBody::PlutoBary => "PlutoBary"@,
            MajorBody::Sun => "Sun"@,
            MajorBody::SEMB_L1 => "SEMB_L1"@,
            MajorBody::SEMB_L2 => "SEMB_L2"@,
            MajorBody::SEMB_L4 => "SEMB_L4"@,
            MajorBody::SEMB_L5 => "SEMB_L5"@,
            MajorBody::Mercury => "Mercury"@,
            MajorBody::Venus => "Venus"@,
            MajorBody::Moon => "Moon"@,
            MajorBody::Earth => "Earth"@,
            MajorBody::Phobos => "Phobos"@,
            MajorBody::Deimos => "Deimos"@,
            MajorBody::Mars => "Mars"@,
            MajorBody::Io => "Io"@,
            MajorBody::Europa => "Europa"@,
            MajorBody::Ganymede => "Ganymede"@,
            MajorBody::Callisto => "Callisto"@,
            MajorBody::Amalthea => "Amalthea"@,
            MajorBody::Himalia => "Himalia"@,
            MajorBody::Elara => "Elara"@,
            MajorBody::Pasiphae => "Pasiphae"@,
            MajorBody::Sinope => "Sinope"@,
            MajorBody::Lysithea => "Lysithea"@,
            MajorBody::Carme => "Carme"@,
            MajorBody::Ananke => "Ananke"@,
            MajorBody::Leda => "Leda"@,
            MajorBody::Thebe => "Thebe"@,
            MajorBody::Adrastea => "Adrastea"@,
            MajorBody::Metis => "Metis"@,
            MajorBody::Callirrhoe => "Callirrhoe"@,
            MajorBody::Themisto => "Themisto"@,
            MajorBody::Megaclite => "Megaclite"@,
            MajorBody::Taygete => "Taygete"@,
            MajorBody::Chaldene => "Chaldene"@,
            MajorBody::Harpalyke => "Harpalyke"@,
            MajorBody::Kalyke => "Kalyke"@,
            MajorBody::Iocaste => "Iocaste"@,
            MajorBody::Erinome => "Erinome"@,
            MajorBody::Isonoe => "Isonoe"@,
            MajorBody::Praxidike => "Praxidike"@,
            MajorBody::Autonoe => "Autonoe"@,
            MajorBody::Thyone => "Thyone"@,
            MajorBody::Hermippe => "Hermippe"@,
            MajorBody::Aitne => "Aitne"@,
            MajorBody::Eurydome => "Eurydome"@,
            MajorBody::Euanthe => "Euanthe"@,
            MajorBody::Euporie => "Euporie"@,
            MajorBody::Orthosie => "Orthosie"@,
            MajorBody::Sponde => "Sponde"@,
            MajorBody::Kale => "Kale"@,
            MajorBody::Pasithee => "Pasithee"@,
            MajorBody::Hegemone => "Hegemone"@,
            MajorBody::Mneme => "Mneme"@,
            MajorBody::Aoede => "Aoede"@,
            MajorBody::Thelxinoe => "Thelxinoe"@,
            MajorBody::Arche => "Arche"@,
            MajorBody::Kallichore => "Kallichore"@,
            MajorBody::Helike => "Helike"@,
            MajorBody::Carpo => "Carpo"@,
            MajorBody::Eukelade => "Eukelade"@,
            MajorBody::Cyllene => "Cyllene"@,
            MajorBody::Kore => "Kore"@,
            MajorBody::Herse => "Herse"@,
            MajorBody::S2010J1 => "S2010J1"@,
            MajorBody::S2010J2 => "S2010J2"@,
            MajorBody::Dia => "Dia"@,
            MajorBody::S2016J1 => "S2016J1"@,
            MajorBody::S2003J18 => "S2003J18"@,
            MajorBody::S2011J2 => "S2011J2"@,
            MajorBody::Eirene => "Eirene"@,
            MajorBody::Philophrosyne => "Philophrosyne"@,
            MajorBody::S2017J1 => "S2017J1"@,
            MajorBody::Eupheme => "Eupheme"@,
            MajorBody::S2003J19 => "S2003J19"@,
            MajorBody::Valetudo => "Valetudo"@,
            MajorBody::S2017J2 => "S2017J2"@,
            MajorBody::S2017J3 => "S2017J3"@,
            MajorBody::Pandia => "Pandia"@,
            MajorBody::S2017J5 => "S2017J5"@,
            MajorBody::S2017J6 => "S2017J6"@,
            MajorBody::S2017J7 => "S2017J7"@,
            MajorBody::S2017J8 => "S2017J8"@,
            MajorBody::S2017J9 => "S2017J9"@,
            MajorBody::Ersa => "Ersa"@,
            MajorBody::S2011J1 => "S2011J1"@,
            MajorBody::Jupiter => "Jupiter"@,
            MajorBody::Mimas => "Mimas"@,
            MajorBody::Enceladus => "Enceladus"@,
            MajorBody::Tethys => "Tethys"@,
            MajorBody::Dione => "Dione"@,
            MajorBody::Rhea => "Rhea"@,
            MajorBody::Titan => "Titan"@,
            MajorBody::Hyperion => "Hyperion"@,
            MajorBody::Iapetus => "Iapetus"@,
            MajorBody::Phoebe => "Phoebe"@,
            MajorBody::Janus => "Janus"@,
            MajorBody::Epimetheus => "Epimetheus"@,
            MajorBody::Helene => "Helene"@,
            MajorBody::Telesto => "Telesto"@,
            MajorBody::Calypso => "Calypso"@,
            MajorBody::Atlas => "Atlas"@,
            MajorBody::Prometheus => "Prometheus"@,
            MajorBody::Pandora => "Pandora"@,
            MajorBody::Pan => "Pan"@,
            MajorBody::Ymir => "Ymir"@,
            MajorBody::Paaliaq => "Paaliaq"@,
            MajorBody::Tarvos => "Tarvos"@,
            MajorBody::Ijiraq => "Ijiraq"@,
            MajorBody::Suttungr => "Suttungr"@,
            MajorBody::Kiviuq => "Kiviuq"@,
            MajorBody::Mundilfari => "Mundilfari"@,
            MajorBody::Albiorix => "Albiorix"@,
            MajorBody::Skathi => "Skathi"@,
            MajorBody::Erriapus => "Erriapus"@,
            MajorBody::Siarnaq => "Siarnaq"@,
            MajorBody::Thrymr => "Thrymr"@,
            MajorBody::Narvi => "Narvi"@,
            MajorBody::Methone => "Methone"@,
            MajorBody::Pallene => "Pallene"@,
            MajorBody::Polydeuces => "Polydeuces"@,
            MajorBody::Daphnis => "Daphnis"@,
            MajorBody::Aegir => "Aegir"@,
            MajorBody::Bebhionn => "Bebhionn"@,
            MajorBody::Bergelmir => "Bergelmir"@,
            MajorBody::Bestla => "Bestla"@,
            MajorBody::Farbauti => "Farbauti"@,
            MajorBody::Fenrir => "Fenrir"@,
            MajorBody::Fornjot => "Fornjot"@,
            MajorBody::Hati => "Hati"@,
            MajorBody::Hyrrokkin => "Hyrrokkin"@,
            MajorBody::Kari => "Kari"@,
            MajorBody::Loge => "Loge"@,
            MajorBody::Skoll => "Skoll"@,
            MajorBody::Surtur => "Surtur"@,
            MajorBody::Anthe => "Anthe"@,
            MajorBody::Jarnsaxa => "Jarnsaxa"@,
            MajorBody::Greip => "Greip"@,
            MajorBody::Tarqeq => "Tarqeq"@,
            MajorBody::Aegaeon => "Aegaeon"@,
            MajorBody::Gridr => "Gridr"@,
            MajorBody::Angrboda => "Angrboda"@,
            MajorBody::Skrymir => "Skrymir"@,
            MajorBody::Gerd => "Gerd"@,
            MajorBody::S2004S26 => "S2004S26"@,
            MajorBody::Eggther => "Eggther"@,
            MajorBody::S2004S29 => "S2004S29"@,
            MajorBody::Beli => "Beli"@,
            MajorBody::Gunnlod => "Gunnlod"@,
            MajorBody::Thiazzi => "Thiazzi"@,
            MajorBody::S2004S34 => "S2004S34"@,
            MajorBody::Alvaldi => "Alvaldi"@,
            MajorBody::Geirrod => "Geirrod"@,
            MajorBody::Saturn => "Saturn"@,
            MajorBody::Ariel => "Ariel"@,
            MajorBody::Umbriel => "Umbriel"@,
            MajorBody::Titania => "Titania"@,
            MajorBody::Oberon => "Oberon"@,
            MajorBody::Miranda => "Miranda"@,
            MajorBody::Cordelia => "Cordelia"@,
            MajorBody::Ophelia => "Ophelia"@,
            MajorBody::Bianca => "Bianca"@,
            MajorBody::Cressida => "Cressida"@,
            MajorBody::Desdemona => "Desdemona"@,
            MajorBody::Juliet => "Juliet"@,
            MajorBody::Portia => "Portia"@,
            MajorBody::Rosalind => "Rosalind"@,
            MajorBody::Belinda => "Belinda"@,
            MajorBody::Puck => "Puck"@,
            MajorBody::Caliban => "Caliban"@,
            MajorBody::Sycorax => "Sycorax"@,
            MajorBody::Prospero => "Prospero"@,
            MajorBody::Setebos => "Setebos"@,
            MajorBody::Stephano => "Stephano"@,
            MajorBody::Trinculo => "Trinculo"@,
            MajorBody::Francisco => "Francisco"@,
            MajorBody::Margaret => "Margaret"@,
            MajorBody::Ferdinand => "Ferdinand"@,
            MajorBody::Perdita => "Perdita"@,
            MajorBody::Mab => "Mab"@,
            MajorBody::Cupid => "Cupid"@,
            MajorBody::Uranus => "Uranus"@,
            MajorBody::Triton => "Triton"@,
            MajorBody::Nereid => "Nereid"@,
            MajorBody::Naiad => "Naiad"@,
            MajorBody::Thalassa => "Thalassa"@,
            MajorBody::Despina => "Despina"@,
            MajorBody::Galatea => "Galatea"@,
            MajorBody::Larissa => "Larissa"@,
            MajorBody::Proteus => "Proteus"@,
            MajorBody::Halimede => "Halimede"@,
            MajorBody::Psamathe => "Psamathe"@,
            MajorBody::Sao => "Sao"@,
            MajorBody::Laomedeia => "Laomedeia"@,
            MajorBody::Neso => "Neso"@,
            MajorBody::Hippocamp => "Hippocamp"@,
            MajorBody::Neptune => "Neptune"@,
            MajorBody::Charon => "Charon"@,
            MajorBody::Nix => "Nix"@,
            MajorBody::Hydra => "Hydra"@,
            MajorBody::Kerberos => "Kerberos"@,
            MajorBody::Styx => "Styx"@,
            MajorBody::Pluto => "Pluto"@,
            MajorBody::EM_L1 => "EM_L1"@,
            MajorBody::EM_L2 => "EM_L2"@,
            MajorBody::EM_L4 => "EM_L4"@,
            MajorBody::EM_L5 => "EM_L5"@,
            MajorBody::S2003J2 => "S2003J2"@,
            MajorBody::S2003J4 => "S2003J4"@,
            MajorBody::S2003J9 => "S2003J9"@,
            MajorBody::S2003J10 => "S2003J10"@,
            MajorBody::S2003J12 => "S2003J12"@,
            MajorBody::S2003J16 => "S2003J16"@,
            MajorBody::S2003J23 => "S2003J23"@,
            MajorBody::S2003J24 => "S2003J24"@,
            MajorBody::S2004S31 => "S2004S31"@,
            MajorBody::S2004S24 => "S2004S24"@,
            MajorBody::S2004S28 => "S2004S28"@,
            MajorBody::S2004S21 => "S2004S21"@,
            MajorBody::S2004S36 => "S2004S36"@,
            MajorBody::S2004S37 => "S2004S37"@,
            MajorBody::S2004S39 => "S2004S39"@,
            MajorBody::S2004S7 => "S2004S7"@,
            MajorBody::S2004S12 => "S2004S12"@,
            MajorBody::S2004S13 => "S2004S13"@,
            MajorBody::S2004S17 => "S2004S17"@,
            MajorBody::S2006S1 => "S2006S1"@,
            MajorBody::S2006S3 => "S2006S3"@,
            MajorBody::S2007S2 => "S2007S2"@,
            MajorBody::S2007S3 => "S2007S3"@,
            MajorBody::S2019S1 => "S2019S1"@,
        }
    }

    /// The code of the body.
    pub fn code(&self) -> (r: u32)
        ensures
            r == self.spec_code(),
    {
        match self {
            MajorBody::SolarSystemBary => 0,
            MajorBody::MercuryBary => 1,
            MajorBody::VenusBary => 2,
            MajorBody::EarthMoonBary => 3,
            MajorBody::MarsBary => 4,
            MajorBody::JupiterBary => 5,
            MajorBody::SaturnBary => 6,
            MajorBody::UranusBary => 7,
            MajorBody::NeptuneBary => 8,
            MajorBody::PlutoBary => 9,
            MajorBody::Sun => 10,
            MajorBody::SEMB_L1 => 31,
            MajorBody::SEMB_L2 => 32,
            MajorBody::SEMB_L4 => 34,
            MajorBody::SEMB_L5 => 35,
            MajorBody::Mercury => 199,
            MajorBody::Venus => 299,
            MajorBody::Moon => 301,
            MajorBody::Earth => 399,
            MajorBody::Phobos => 401,
            MajorBody::Deimos => 402,
            MajorBody::Mars => 499,
            MajorBody::Io => 501,
            MajorBody::Europa => 502,
            MajorBody::Ganymede => 503,
            MajorBody::Callisto => 504,
            MajorBody::Amalthea => 505,
            MajorBody::Himalia => 506,
            MajorBody::Elara => 507,
            MajorBody::Pasiphae => 508,
            MajorBody::Sinope => 509,
            MajorBody::Lysithea => 510,
            MajorBody::Carme => 511,
            MajorBody::Ananke => 512,
            MajorBody::Leda => 513,
            MajorBody::Thebe => 514,
            MajorBody::Adrastea => 515,
            MajorBody::Metis => 516,
            MajorBody::Callirrhoe => 517,
            MajorBody::Themisto => 518,
            MajorBody::Megaclite => 519,
            MajorBody::Taygete => 520,
            MajorBody::Chaldene => 521,
            MajorBody::Harpalyke => 522,
            MajorBody::Kalyke => 523,
            MajorBody::Iocaste => 524,
            MajorBody::Erinome => 525,
            MajorBody::Isonoe => 526,
            MajorBody::Praxidike => 527,
            MajorBody::Autonoe => 528,
            MajorBody::Thyone => 529,
            MajorBody::Hermippe => 530,
            MajorBody::Aitne => 531,
            MajorBody::Eurydome => 532,
            MajorBody::Euanthe => 533,
            MajorBody::Euporie => 534,
            MajorBody::Orthosie => 535,
            MajorBody::Sponde => 536,
            MajorBody::Kale => 537,
            MajorBody::Pasithee => 538,
            MajorBody::Hegemone => 539,
            MajorBody::Mneme => 540,
            MajorBody::Aoede => 541,
            MajorBody::Thelxinoe => 542,
            MajorBody::Arche => 543,
            MajorBody::Kallichore => 544,
            MajorBody::Helike => 545,
            MajorBody::Carpo => 546,
            MajorBody::Eukelade => 547,
            MajorBody::Cyllene => 548,
            MajorBody::Kore => 549,
            MajorBody::Herse => 550,
            MajorBody::S2010J1 => 551,
            MajorBody::S2010J2 => 552,
            MajorBody::Dia => 553,
            MajorBody::S2016J1 => 554,
            MajorBody::S2003J18 => 555,
            MajorBody::S2011J2 => 556,
            MajorBody::Eirene => 557,
            MajorBody::Philophrosyne => 558,
            MajorBody::S2017J1 => 559,
            MajorBody::Eupheme => 560,
            MajorBody::S2003J19 => 561,
            MajorBody::Valetudo => 562,
            MajorBody::S2017J2 => 563,
            MajorBody::S2017J3 => 564,
            MajorBody::Pandia => 565,
            MajorBody::S2017J5 => 566,
            MajorBody::S2017J6 => 567,
            MajorBody::S2017J7 => 568,
            MajorBody::S2017J8 => 569,
            MajorBody::S2017J9 => 570,
            MajorBody::Ersa => 571,
            MajorBody::S2011J1 => 572,
            MajorBody::Jupiter => 599,
            MajorBody::Mimas => 601,
            MajorBody::Enceladus => 602,
            MajorBody::Tethys => 603,
            MajorBody::Dione => 604,
            MajorBody::Rhea => 605,
            MajorBody::Titan => 606,
            MajorBody::Hyperion => 607,
            MajorBody::Iapetus => 608,
            MajorBody::Phoebe => 609,
            MajorBody::Janus => 610,
            MajorBody::Epimetheus => 611,
            MajorBody::Helene => 612,
            MajorBody::Telesto => 613,
            MajorBody::Calypso => 614,
            MajorBody::Atlas => 615,
            MajorBody::Prometheus => 616,
            MajorBody::Pandora => 617,
            MajorBody::Pan => 618,
            MajorBody::Ymir => 619,
            MajorBody::Paaliaq => 620,
            MajorBody::Tarvos => 621,
            MajorBody::Ijiraq => 622,
            MajorBody::Suttungr => 623,
            MajorBody::Kiviuq => 624,
            MajorBody::Mundilfari => 625,
            MajorBody::Albiorix => 626,
            MajorBody::Skathi => 627,
            MajorBody::Erriapus => 628,
            MajorBody::Siarnaq => 629,
            MajorBody::Thrymr => 630,
            MajorBody::Narvi => 631,
            MajorBody::Methone => 632,
            MajorBody::Pallene => 633,
            MajorBody::Polydeuces => 634,
            MajorBody::Daphnis => 635,
            MajorBody::Aegir => 636,
            MajorBody::Bebhionn => 637,
            MajorBody::Bergelmir => 638,
            MajorBody::Bestla => 639,
            MajorBody::Farbauti => 640,
            MajorBody::Fenrir => 641,
            MajorBody::Fornjot => 642,
            MajorBody::Hati => 643,
            MajorBody::Hyrrokkin => 644,
            MajorBody::Kari => 645,
            MajorBody::Loge => 646,
            MajorBody::Skoll => 647,
            MajorBody::Surtur => 648,
            MajorBody::Anthe => 649,
            MajorBody::Jarnsaxa => 650,
            MajorBody::Greip => 651,
            MajorBody::Tarqeq => 652,
            MajorBody::Aegaeon => 653,
            MajorBody::Gridr => 654,
            MajorBody::Angrboda => 655,
            MajorBody::Skrymir => 656,
            MajorBody::Gerd => 657,
            MajorBody::S2004S26 => 658,
            MajorBody::Eggther => 659,
            MajorBody::S2004S29 => 660,
            MajorBody::Beli => 661,
            MajorBody::Gunnlod => 662,
            MajorBody::Thiazzi => 663,
            MajorBody::S2004S34 => 664,
            MajorBody::Alvaldi => 665,
            MajorBody::Geirrod => 666,
            MajorBody::Saturn => 699,
            MajorBody::Ariel => 701,
            MajorBody::Umbriel => 702,
            MajorBody::Titania => 703,
            MajorBody::Oberon => 704,
            MajorBody::Miranda => 705,
            MajorBody::Cordelia => 706,
            MajorBody::Ophelia => 707,
            MajorBody::Bianca => 708,
            MajorBody::Cressida => 709,
            MajorBody::Desdemona => 710,
            MajorBody::Juliet => 711,
            MajorBody::Portia => 712,
            MajorBody::Rosalind => 713,
            MajorBody::Belinda => 714,
            MajorBody::Puck => 715,
            MajorBody::Caliban => 716,
            MajorBody::Sycorax => 717,
            MajorBody::Prospero => 718,
            MajorBody::Setebos => 719,
            MajorBody::Stephano => 720,
            MajorBody::Trinculo => 721,
            MajorBody::Francisco => 722,
            MajorBody::Margaret => 723,
            MajorBody::Ferdinand => 724,
            MajorBody::Perdita => 725,
            MajorBody::Mab => 726,
            MajorBody::Cupid => 727,
            MajorBody::Uranus => 799,
            MajorBody::Triton => 801,
            MajorBody::Nereid => 802,
            MajorBody::Naiad => 803,
            MajorBody::Thalassa => 804,
            MajorBody::Despina => 805,
            MajorBody::Galatea => 806,
            MajorBody::Larissa => 807,
            MajorBody::Proteus => 808,
            MajorBody::Halimede => 809,
            MajorBody::Psamathe => 810,
            MajorBody::Sao => 811,
            MajorBody::Laomedeia => 812,
            MajorBody::Neso => 813,
            MajorBody::Hippocamp => 814,
            MajorBody::Neptune => 899,
            MajorBody::Charon => 901,
            MajorBody::Nix => 902,
            MajorBody::Hydra => 903,
            MajorBody::Kerberos => 904,
            MajorBody::Styx => 905,
            MajorBody::Pluto => 999,
            MajorBody::EM_L1 => 3011,
            MajorBody::EM_L2 => 3012,
            MajorBody::EM_L4 => 3014,
            MajorBody::EM_L5 => 3015,
            MajorBody::S2003J2 => 55501,
            MajorBody::S2003J4 => 55502,
            MajorBody::S2003J9 => 55503,
            MajorBody::S2003J10 => 55504,
            MajorBody::S2003J12 => 55505,
            MajorBody::S2003J16 => 55506,
            MajorBody::S2003J23 => 55507,
            MajorBody::S2003J24 => 55508,
            MajorBody::S2004S31 => 65067,
            MajorBody::S2004S24 => 65070,
            MajorBody::S2004S28 => 65077,
            MajorBody::S2004S21 => 65079,
            MajorBody::S2004S36 => 65081,
            MajorBody::S2004S37 => 65082,
            MajorBody::S2004S39 => 65084,
            MajorBody::S2004S7 => 65085,
            MajorBody::S2004S12 => 65086,
            MajorBody::S2004S13 => 65087,
            MajorBody::S2004S17 => 65088,
            MajorBody::S2006S1 => 65089,
            MajorBody::S2006S3 => 65090,
            MajorBody::S2007S2 => 65091,
            MajorBody::S2007S3 => 65092,
            MajorBody::S2019S1 => 65093,
        }
    }

    /// The symbolic name of the body.
    pub fn name(&self) -> (r: &'static str)
        ensures
            r@ == self.spec_name(),
    {
        match self {
            MajorBody::SolarSystemBary => "SolarSystemBary",
            MajorBody::MercuryBary => "MercuryBary",
            MajorBody::VenusBary => "VenusBary",
            MajorBody::EarthMoonBary => "EarthMoonBary",
            MajorBody::MarsBary => "MarsBary",
            MajorBody::JupiterBary => "JupiterBary",
            MajorBody::SaturnBary => "SaturnBary",
            MajorBody::UranusBary => "UranusBary",
            MajorBody::NeptuneBary => "NeptuneBary",
            MajorBody::PlutoBary => "PlutoBary",
            MajorBody::Sun => "Sun",
            MajorBody::SEMB_L1 => "SEMB_L1",
            MajorBody::SEMB_L2 => "SEMB_L2",
            MajorBody::SEMB_L4 => "SEMB_L4",
            MajorBody::SEMB_L5 => "SEMB_L5",
            MajorBody::Mercury => "Mercury",
            MajorBody::Venus => "Venus",
            MajorBody::Moon => "Moon",
            MajorBody::Earth => "Earth",
            MajorBody::Phobos => "Phobos",
            MajorBody::Deimos => "Deimos",
            MajorBody::Mars => "Mars",
            MajorBody::Io => "Io",
            MajorBody::Europa => "Europa",
            MajorBody::Ganymede => "Ganymede",
            MajorBody::Callisto => "Callisto",
            MajorBody::Amalthea => "Amalthea",
            MajorBody::Himalia => "Himalia",
            MajorBody::Elara => "Elara",
            MajorBody::Pasiphae => "Pasiphae",
            MajorBody::Sinope => "Sinope",
            MajorBody::Lysithea => "Lysithea",
            MajorBody::Carme => "Carme",
            MajorBody::Ananke => "Ananke",
            MajorBody::Leda => "Leda",
            MajorBody::Thebe => "Thebe",
            MajorBody::Adrastea => "Adrastea",
            MajorBody::Metis => "Metis",
            MajorBody::Callirrhoe => "Callirrhoe",
            MajorBody::Themisto => "Themisto",
            MajorBody::Megaclite => "Megaclite",
            MajorBody::Taygete => "Taygete",
            MajorBody::Chaldene => "Chaldene",
            MajorBody::Harpalyke => "Harpalyke",
            MajorBody::Kalyke => "Kalyke",
            MajorBody::Iocaste => "Iocaste",
            MajorBody::Erinome => "Erinome",
            MajorBody::Isonoe => "Isonoe",
            MajorBody::Praxidike => "Praxidike",
            MajorBody::Autonoe => "Autonoe",
            MajorBody::Thyone => "Thyone",
            MajorBody::Hermippe => "Hermippe",
            MajorBody::Aitne => "Aitne",
            MajorBody::Eurydome => "Eurydome",
            MajorBody::Euanthe => "Euanthe",
            MajorBody::Euporie => "Euporie",
            MajorBody::Orthosie => "Orthosie",
            MajorBody::Sponde => "Sponde",
            MajorBody::Kale => "Kale",
            MajorBody::Pasithee => "Pasithee",
            MajorBody::Hegemone => "Hegemone",
            MajorBody::Mneme => "Mneme",
            MajorBody::Aoede => "Aoede",
            MajorBody::Thelxinoe => "Thelxinoe",
            MajorBody::Arche => "Arche",
            MajorBody::Kallichore => "Kallichore",
            MajorBody::Helike => "Helike",
            MajorBody::Carpo => "Carpo",
            MajorBody::Eukelade => "Eukelade",
            MajorBody::Cyllene => "Cyllene",
            MajorBody::Kore => "Kore",
            MajorBody::Herse => "Herse",
            MajorBody::S2010J1 => "S2010J1",
            MajorBody::S2010J2 => "S2010J2",
            MajorBody::Dia => "Dia",
            MajorBody::S2016J1 => "S2016J1",
            MajorBody::S2003J18 => "S2003J18",
            MajorBody::S2011J2 => "S2011J2",
            MajorBody::Eirene => "Eirene",
            MajorBody::Philophrosyne => "Philophrosyne",
            MajorBody::S2017J1 => "S2017J1",
            MajorBody::Eupheme => "Eupheme",
            MajorBody::S2003J19 => "S2003J19",
            MajorBody::Valetudo => "Valetudo",
            MajorBody::S2017J2 => "S2017J2",
            MajorBody::S2017J3 => "S2017J3",
            MajorBody::Pandia => "Pandia",
            MajorBody::S2017J5 => "S2017J5",
            MajorBody::S2017J6 => "S2017J6",
            MajorBody::S2017J7 => "S2017J7",
            MajorBody::S2017J8 => "S2017J8",
            MajorBody::S2017J9 => "S2017J9",
            MajorBody::Ersa => "Ersa",
            MajorBody::S2011J1 => "S2011J1",
            MajorBody::Jupiter => "Jupiter",
            MajorBody::Mimas => "Mimas",
            MajorBody::Enceladus => "Enceladus",
            MajorBody::Tethys => "Tethys",
            MajorBody::Dione => "Dione",
            MajorBody::Rhea => "Rhea",
            MajorBody::Titan => "Titan",
            MajorBody::Hyperion => "Hyperion",
            MajorBody::Iapetus => "Iapetus",
            MajorBody::Phoebe => "Phoebe",
            MajorBody::Janus => "Janus",
            MajorBody::Epimetheus => "Epimetheus",
            MajorBody::Helene => "Helene",
            MajorBody::Telesto => "Telesto",
            MajorBody::Calypso => "Calypso",
            MajorBody::Atlas => "Atlas",
            MajorBody::Prometheus => "Prometheus",
            MajorBody::Pandora => "Pandora",
            MajorBody::Pan => "Pan",
            MajorBody::Ymir => "Ymir",
            MajorBody::Paaliaq => "Paaliaq",
            MajorBody::Tarvos => "Tarvos",
            MajorBody::Ijiraq => "Ijiraq",
            MajorBody::Suttungr => "Suttungr",
            MajorBody::Kiviuq => "Kiviuq",
            MajorBody::Mundilfari => "Mundilfari",
            MajorBody::Albiorix => "Albiorix",
            MajorBody::Skathi => "Skathi",
            MajorBody::Erriapus => "Erriapus",
            MajorBody::Siarnaq => "Siarnaq",
            MajorBody::Thrymr => "Thrymr",
            MajorBody::Narvi => "Narvi",
            MajorBody::Methone => "Methone",
            MajorBody::Pallene => "Pallene",
            MajorBody::Polydeuces => "Polydeuces",
            MajorBody::Daphnis => "Daphnis",
            MajorBody::Aegir => "Aegir",
            MajorBody::Bebhionn => "Bebhionn",
            MajorBody::Bergelmir => "Bergelmir",
            MajorBody::Bestla => "Bestla",
            MajorBody::Farbauti => "Farbauti",
            MajorBody::Fenrir => "Fenrir",
            MajorBody::Fornjot => "Fornjot",
            MajorBody::Hati => "Hati",
            MajorBody::Hyrrokkin => "Hyrrokkin",
            MajorBody::Kari => "Kari",
            MajorBody::Loge => "Loge",
            MajorBody::Skoll => "Skoll",
            MajorBody::Surtur => "Surtur",
            MajorBody::Anthe => "Anthe",
            MajorBody::Jarnsaxa => "Jarnsaxa",
            MajorBody::Greip => "Greip",
            MajorBody::Tarqeq => "Tarqeq",
            MajorBody::Aegaeon => "Aegaeon",
            MajorBody::Gridr => "Gridr",
            MajorBody::Angrboda => "Angrboda",
            MajorBody::Skrymir => "Skrymir",
            MajorBody::Gerd => "Gerd",
            MajorBody::S2004S26 => "S2004S26",
            MajorBody::Eggther => "Eggther",
            MajorBody::S2004S29 => "S2004S29",
            MajorBody::Beli => "Beli",
            MajorBody::Gunnlod => "Gunnlod",
            MajorBody::Thiazzi => "Thiazzi",
            MajorBody::S2004S34 => "S2004S34",
            MajorBody::Alvaldi => "Alvaldi",
            MajorBody::Geirrod => "Geirrod",
            MajorBody::Saturn => "Saturn",
            MajorBody::Ariel => "Ariel",
            MajorBody::Umbriel => "Umbriel",
            MajorBody::Titania => "Titania",
            MajorBody::Oberon => "Oberon",
            MajorBody::Miranda => "Miranda",
            MajorBody::Cordelia => "Cordelia",
            MajorBody::Ophelia => "Ophelia",
            MajorBody::Bianca => "Bianca",
            MajorBody::Cressida => "Cressida",
            MajorBody::Desdemona => "Desdemona",
            MajorBody::Juliet => "Juliet",
            MajorBody::Portia => "Portia",
            MajorBody::Rosalind => "Rosalind",
            MajorBody::Belinda => "Belinda",
            MajorBody::Puck => "Puck",
            MajorBody::Caliban => "Caliban",
            MajorBody::Sycorax => "Sycorax",
            MajorBody::Prospero => "Prospero",
            MajorBody::Setebos => "Setebos",
            MajorBody::Stephano => "Stephano",
            MajorBody::Trinculo => "Trinculo",
            MajorBody::Francisco => "Francisco",
            MajorBody::Margaret => "Margaret",
            MajorBody::Ferdinand => "Ferdinand",
            MajorBody::Perdita => "Perdita",
            MajorBody::Mab => "Mab",
            MajorBody::Cupid => "Cupid",
            MajorBody::Uranus => "Uranus",
            MajorBody::Triton => "Triton",
            MajorBody::Nereid => "Nereid",
            MajorBody::Naiad => "Naiad",
            MajorBody::Thalassa => "Thalassa",
            MajorBody::Despina => "Despina",
            MajorBody::Galatea => "Galatea",
            MajorBody::Larissa => "Larissa",
            MajorBody::Proteus => "Proteus",
            MajorBody::Halimede => "Halimede",
            MajorBody::Psamathe => "Psamathe",
            MajorBody::Sao => "Sao",
            MajorBody::Laomedeia => "Laomedeia",
            MajorBody::Neso => "Neso",
            MajorBody::Hippocamp => "Hippocamp",
            MajorBody::Neptune => "Neptune",
            MajorBody::Charon => "Charon",
            MajorBody::Nix => "Nix",
            MajorBody::Hydra => "Hydra",
            MajorBody::Kerberos => "Kerberos",
            MajorBody::Styx => "Styx",
            MajorBody::Pluto => "Pluto",
            MajorBody::EM_L1 => "EM_L1",
            MajorBody::EM_L2 => "EM_L2",
            MajorBody::EM_L4 => "EM_L4",
            MajorBody::EM_L5 => "EM_L5",
            MajorBody::S2003J2 => "S2003J2",
            MajorBody::S2003J4 => "S2003J4",
            MajorBody::S2003J9 => "S2003J9",
            MajorBody::S2003J10 => "S2003J10",
            MajorBody::S2003J12 => "S2003J12",
            MajorBody::S2003J16 => "S2003J16",
            MajorBody::S2003J23 => "S2003J23",
            MajorBody::S2003J24 => "S2003J24",
            MajorBody::S2004S31 => "S2004S31",
            MajorBody::S2004S24 => "S2004S24",
            MajorBody::S2004S28 => "S2004S28",
            MajorBody::S2004S21 => "S2004S21",
            MajorBody::S2004S36 => "S2004S36",
            MajorBody::S2004S37 => "S2004S37",
            MajorBody::S2004S39 => "S2004S39",
            MajorBody::S2004S7 => "S2004S7",
            MajorBody::S2004S12 => "S2004S12",
            MajorBody::S2004S13 => "S2004S13",
            MajorBody::S2004S17 => "S2004S17",
            MajorBody::S2006S1 => "S2006S1",
            MajorBody::S2006S3 => "S2006S3",
            MajorBody::S2007S2 => "S2007S2",
            MajorBody::S2007S3 => "S2007S3",
            MajorBody::S2019S1 => "S2019S1",
        }
    }

    /// Looks up the body whose code is `code`.
    pub fn from_code(code: i64) -> (r: Result<MajorBody, InvalidBodyCode>)
        ensures
            r == decode_result(code as int, code),
    {
        match code {
            0 => Ok(MajorBody::SolarSystemBary),
            1 => Ok(MajorBody::MercuryBary),
            2 => Ok(MajorBody::VenusBary),
            3 => Ok(MajorBody::EarthMoonBary),
            4 => Ok(MajorBody::MarsBary),
            5 => Ok(MajorBody::JupiterBary),
            6 => Ok(MajorBody::SaturnBary),
            7 => Ok(MajorBody::UranusBary),
            8 => Ok(MajorBody::NeptuneBary),
            9 => Ok(MajorBody::PlutoBary),
            10 => Ok(MajorBody::Sun),
            31 => Ok(MajorBody::SEMB_L1),
            32 => Ok(MajorBody::SEMB_L2),
            34 => Ok(MajorBody::SEMB_L4),
            35 => Ok(MajorBody::SEMB_L5),
            199 => Ok(MajorBody::Mercury),
            299 => Ok(MajorBody::Venus),
            301 => Ok(MajorBody::Moon),
            399 => Ok(MajorBody::Earth),
            401 => Ok(MajorBody::Phobos),
            402 => Ok(MajorBody::Deimos),
            499 => Ok(MajorBody::Mars),
            501 => Ok(MajorBody::Io),
            502 => Ok(MajorBody::Europa),
            503 => Ok(MajorBody::Ganymede),
            504 => Ok(MajorBody::Callisto),
            505 => Ok(MajorBody::Amalthea),
            506 => Ok(MajorBody::Himalia),
            507 => Ok(MajorBody::Elara),
            508 => Ok(MajorBody::Pasiphae),
            509 => Ok(MajorBody::Sinope),
            510 => Ok(MajorBody::Lysithea),
            511 => Ok(MajorBody::Carme),
            512 => Ok(MajorBody::Ananke),
            513 => Ok(MajorBody::Leda),
            514 => Ok(MajorBody::Thebe),
            515 => Ok(MajorBody::Adrastea),
            516 => Ok(MajorBody::Metis),
            517 => Ok(MajorBody::Callirrhoe),
            518 => Ok(MajorBody::Themisto),
            519 => Ok(MajorBody::Megaclite),
            520 => Ok(MajorBody::Taygete),
            521 => Ok(MajorBody::Chaldene),
            522 => Ok(MajorBody::Harpalyke),
            523 => Ok(MajorBody::Kalyke),
            524 => Ok(MajorBody::Iocaste),
            525 => Ok(MajorBody::Erinome),
            526 => Ok(MajorBody::Isonoe),
            527 => Ok(MajorBody::Praxidike),
            528 => Ok(MajorBody::Autonoe),
            529 => Ok(MajorBody::Thyone),
            530 => Ok(MajorBody::Hermippe),
            531 => Ok(MajorBody::Aitne),
            532 => Ok(MajorBody::Eurydome),
            533 => Ok(MajorBody::Euanthe),
            534 => Ok(MajorBody::Euporie),
            535 => Ok(MajorBody::Orthosie),
            536 => Ok(MajorBody::Sponde),
            537 => Ok(MajorBody::Kale),
            538 => Ok(MajorBody::Pasithee),
            539 => Ok(MajorBody::Hegemone),
            540 => Ok(MajorBody::Mneme),
            541 => Ok(MajorBody::Aoede),
            542 => Ok(MajorBody::Thelxinoe),
            543 => Ok(MajorBody::Arche),
            544 => Ok(MajorBody::Kallichore),
            545 => Ok(MajorBody::Helike),
            546 => Ok(MajorBody::Carpo),
            547 => Ok(MajorBody::Eukelade),
            548 => Ok(MajorBody::Cyllene),
            549 => Ok(MajorBody::Kore),
            550 => Ok(MajorBody::Herse),
            551 => Ok(MajorBody::S2010J1),
            552 => Ok(MajorBody::S2010J2),
            553 => Ok(MajorBody::Dia),
            554 => Ok(MajorBody::S2016J1),
            555 => Ok(MajorBody::S2003J18),
            556 => Ok(MajorBody::S2011J2),
            557 => Ok(MajorBody::Eirene),
            558 => Ok(MajorBody::Philophrosyne),
            559 => Ok(MajorBody::S2017J1),
            560 => Ok(MajorBody::Eupheme),
            561 => Ok(MajorBody::S2003J19),
            562 => Ok(MajorBody::Valetudo),
            563 => Ok(MajorBody::S2017J2),
            564 => Ok(MajorBody::S2017J3),
            565 => Ok(MajorBody::Pandia),
            566 => Ok(MajorBody::S2017J5),
            567 => Ok(MajorBody::S2017J6),
            568 => Ok(MajorBody::S2017J7),
            569 => Ok(MajorBody::S2017J8),
            570 => Ok(MajorBody::S2017J9),
            571 => Ok(MajorBody::Ersa),
            572 => Ok(MajorBody::S2011J1),
            599 => Ok(MajorBody::Jupiter),
            601 => Ok(MajorBody::Mimas),
            602 => Ok(MajorBody::Enceladus),
            603 => Ok(MajorBody::Tethys),
            604 => Ok(MajorBody::Dione),
            605 => Ok(MajorBody::Rhea),
            606 => Ok(MajorBody::Titan),
            607 => Ok(MajorBody::Hyperion),
            608 => Ok(MajorBody::Iapetus),
            609 => Ok(MajorBody::Phoebe),
            610 => Ok(MajorBody::Janus),
            611 => Ok(MajorBody::Epimetheus),
            612 => Ok(MajorBody::Helene),
            613 => Ok(MajorBody::Telesto),
            614 => Ok(MajorBody::Calypso),
            615 => Ok(MajorBody::Atlas),
            616 => Ok(MajorBody::Prometheus),
            617 => Ok(MajorBody::Pandora),
            618 => Ok(MajorBody::Pan),
            619 => Ok(MajorBody::Ymir),
            620 => Ok(MajorBody::Paaliaq),
            621 => Ok(MajorBody::Tarvos),
            622 => Ok(MajorBody::Ijiraq),
            623 => Ok(MajorBody::Suttungr),
            624 => Ok(MajorBody::Kiviuq),
            625 => Ok(MajorBody::Mundilfari),
            626 => Ok(MajorBody::Albiorix),
            627 => Ok(MajorBody::Skathi),
            628 => Ok(MajorBody::Erriapus),
            629 => Ok(MajorBody::Siarnaq),
            630 => Ok(MajorBody::Thrymr),
            631 => Ok(MajorBody::Narvi),
            632 => Ok(MajorBody::Methone),
            633 => Ok(MajorBody::Pallene),
            634 => Ok(MajorBody::Polydeuces),
            635 => Ok(MajorBody::Daphnis),
            636 => Ok(MajorBody::Aegir),
            637 => Ok(MajorBody::Bebhionn),
            638 => Ok(MajorBody::Bergelmir),
            639 => Ok(MajorBody::Bestla),
            640 => Ok(MajorBody::Farbauti),
            641 => Ok(MajorBody::Fenrir),
            642 => Ok(MajorBody::Fornjot),
            643 => Ok(MajorBody::Hati),
            644 => Ok(MajorBody::Hyrrokkin),
            645 => Ok(MajorBody::Kari),
            646 => Ok(MajorBody::Loge),
            647 => Ok(MajorBody::Skoll),
            648 => Ok(MajorBody::Surtur),
            649 => Ok(MajorBody::Anthe),
            650 => Ok(MajorBody::Jarnsaxa),
            651 => Ok(MajorBody::Greip),
            652 => Ok(MajorBody::Tarqeq),
            653 => Ok(MajorBody::Aegaeon),
            654 => Ok(MajorBody::Gridr),
            655 => Ok(MajorBody::Angrboda),
            656 => Ok(MajorBody::Skrymir),
            657 => Ok(MajorBody::Gerd),
            658 => Ok(MajorBody::S2004S26),
            659 => Ok(MajorBody::Eggther),
            660 => Ok(MajorBody::S2004S29),
            661 => Ok(MajorBody::Beli),
            662 => Ok(MajorBody::Gunnlod),
            663 => Ok(MajorBody::Thiazzi),
            664 => Ok(MajorBody::S2004S34),
            665 => Ok(MajorBody::Alvaldi),
            666 => Ok(MajorBody::Geirrod),
            699 => Ok(MajorBody::Saturn),
            701 => Ok(MajorBody::Ariel),
            702 => Ok(MajorBody::Umbriel),
            703 => Ok(MajorBody::Titania),
            704 => Ok(MajorBody::Oberon),
            705 => Ok(MajorBody::Miranda),
            706 => Ok(MajorBody::Cordelia),
            707 => Ok(MajorBody::Ophelia),
            708 => Ok(MajorBody::Bianca),
            709 => Ok(MajorBody::Cressida),
            710 => Ok(MajorBody::Desdemona),
            711 => Ok(MajorBody::Juliet),
            712 => Ok(MajorBody::Portia),
            713 => Ok(MajorBody::Rosalind),
            714 => Ok(MajorBody::Belinda),
            715 => Ok(MajorBody::Puck),
            716 => Ok(MajorBody::Caliban),
            717 => Ok(MajorBody::Sycorax),
            718 => Ok(MajorBody::Prospero),
            719 => Ok(MajorBody::Setebos),
            720 => Ok(MajorBody::Stephano),
            721 => Ok(MajorBody::Trinculo),
            722 => Ok(MajorBody::Francisco),
            723 => Ok(MajorBody::Margaret),
            724 => Ok(MajorBody::Ferdinand),
            725 => Ok(MajorBody::Perdita),
            726 => Ok(MajorBody::Mab),
            727 => Ok(MajorBody::Cupid),
            799 => Ok(MajorBody::Uranus),
            801 => Ok(MajorBody::Triton),
            802 => Ok(MajorBody::Nereid),
            803 => Ok(MajorBody::Naiad),
            804 => Ok(MajorBody::Thalassa),
            805 => Ok(MajorBody::Despina),
            806 => Ok(MajorBody::Galatea),
            807 => Ok(MajorBody::Larissa),
            808 => Ok(MajorBody::Proteus),
            809 => Ok(MajorBody::Halimede),
            810 => Ok(MajorBody::Psamathe),
            811 => Ok(MajorBody::Sao),
            812 => Ok(MajorBody::Laomedeia),
            813 => Ok(MajorBody::Neso),
            814 => Ok(MajorBody::Hippocamp),
            899 => Ok(MajorBody::Neptune),
            901 => Ok(MajorBody::Charon),
            902 => Ok(MajorBody::Nix),
            903 => Ok(MajorBody::Hydra),
            904 => Ok(MajorBody::Kerberos),
            905 => Ok(MajorBody::Styx),
            999 => Ok(MajorBody::Pluto),
            3011 => Ok(MajorBody::EM_L1),
            3012 => Ok(MajorBody::EM_L2),
            3014 => Ok(MajorBody::EM_L4),
            3015 => Ok(MajorBody::EM_L5),
            55501 => Ok(MajorBody::S2003J2),
            55502 => Ok(MajorBody::S2003J4),
            55503 => Ok(MajorBody::S2003J9),
            55504 => Ok(MajorBody::S2003J10),
            55505 => Ok(MajorBody::S2003J12),
            55506 => Ok(MajorBody::S2003J16),
            55507 => Ok(MajorBody::S2003J23),
            55508 => Ok(MajorBody::S2003J24),
            65067 => Ok(MajorBody::S2004S31),
            65070 => Ok(MajorBody::S2004S24),
            65077 => Ok(MajorBody::S2004S28),
            65079 => Ok(MajorBody::S2004S21),
            65081 => Ok(MajorBody::S2004S36),
            65082 => Ok(MajorBody::S2004S37),
            65084 => Ok(MajorBody::S2004S39),
            65085 => Ok(MajorBody::S2004S7),
            65086 => Ok(MajorBody::S2004S12),
            65087 => Ok(MajorBody::S2004S13),
            65088 => Ok(MajorBody::S2004S17),
            65089 => Ok(MajorBody::S2006S1),
            65090 => Ok(MajorBody::S2006S3),
            65091 => Ok(MajorBody::S2007S2),
            65092 => Ok(MajorBody::S2007S3),
            65093 => Ok(MajorBody::S2019S1),
            _ => Err(InvalidBodyCode(code)),
        }
    }
}

/// The body whose code is `n`, if any.
pub open spec fn decode_body(n: int) -> Option<MajorBody> {
    if 0 <= n <= u32::MAX {
        decode_code(n as u32)
    } else {
        None
    }
}

/// The body whose code is `n`, if any, for a code that fits in `u32`.
pub open spec fn decode_code(n: u32) -> Option<MajorBody> {
    match n {
        0 => Some(MajorBody::SolarSystemBary),
        1 => Some(MajorBody::MercuryBary),
        2 => Some(MajorBody::VenusBary),
        3 => Some(MajorBody::EarthMoonBary),
        4 => Some(MajorBody::MarsBary),
        5 => Some(MajorBody::JupiterBary),
        6 => Some(MajorBody::SaturnBary),
        7 => Some(MajorBody::UranusBary),
        8 => Some(MajorBody::NeptuneBary),
        9 => Some(MajorBody::PlutoBary),
        10 => Some(MajorBody::Sun),
        31 => Some(MajorBody::SEMB_L1),
        32 => Some(MajorBody::SEMB_L2),
        34 => Some(MajorBody::SEMB_L4),
        35 => Some(MajorBody::SEMB_L5),
        199 => Some(MajorBody::Mercury),
        299 => Some(MajorBody::Venus),
        301 => Some(MajorBody::Moon),
        399 => Some(MajorBody::Earth),
        401 => Some(MajorBody::Phobos),
        402 => Some(MajorBody::Deimos),
        499 => Some(MajorBody::Mars),
        501 => Some(MajorBody::Io),
        502 => Some(MajorBody::Europa),
        503 => Some(MajorBody::Ganymede),
        504 => Some(MajorBody::Callisto),
        505 => Some(MajorBody::Amalthea),
        506 => Some(MajorBody::Himalia),
        507 => Some(MajorBody::Elara),
        508 => Some(MajorBody::Pasiphae),
        509 => Some(MajorBody::Sinope),
        510 => Some(MajorBody::Lysithea),
        511 => Some(MajorBody::Carme),
        512 => Some(MajorBody::Ananke),
        513 => Some(MajorBody::Leda),
        514 => Some(MajorBody::Thebe),
        515 => Some(MajorBody::Adrastea),
        516 => Some(MajorBody::Metis),
        517 => Some(MajorBody::Callirrhoe),
        518 => Some(MajorBody::Themisto),
        519 => Some(MajorBody::Megaclite),
        520 => Some(MajorBody::Taygete),
        521 => Some(MajorBody::Chaldene),
        522 => Some(MajorBody::Harpalyke),
        523 => Some(MajorBody::Kalyke),
        524 => Some(MajorBody::Iocaste),
        525 => Some(MajorBody::Erinome),
        526 => Some(MajorBody::Isonoe),
        527 => Some(MajorBody::Praxidike),
        528 => Some(MajorBody::Autonoe),
        529 => Some(MajorBody::Thyone),
        530 => Some(MajorBody::Hermippe),
        531 => Some(MajorBody::Aitne),
        532 => Some(MajorBody::Eurydome),
        533 => Some(MajorBody::Euanthe),
        534 => Some(MajorBody::Euporie),
        535 => Some(MajorBody::Orthosie),
        536 => Some(MajorBody::Sponde),
        537 => Some(MajorBody::Kale),
        538 => Some(MajorBody::Pasithee),
        539 => Some(MajorBody::Hegemone),
        540 => Some(MajorBody::Mneme),
        541 => Some(MajorBody::Aoede),
        542 => Some(MajorBody::Thelxinoe),
        543 => Some(MajorBody::Arche),
        544 => Some(MajorBody::Kallichore),
        545 => Some(MajorBody::Helike),
        546 => Some(MajorBody::Carpo),
        547 => Some(MajorBody::Eukelade),
        548 => Some(MajorBody::Cyllene),
        549 => Some(MajorBody::Kore),
        550 => Some(MajorBody::Herse),
        551 => Some(MajorBody::S2010J1),
        552 => Some(MajorBody::S2010J2),
        553 => Some(MajorBody::Dia),
        554 => Some(MajorBody::S2016J1),
        555 => Some(MajorBody::S2003J18),
        556 => Some(MajorBody::S2011J2),
        557 => Some(MajorBody::Eirene),
        558 => Some(MajorBody::Philophrosyne),
        559 => Some(MajorBody::S2017J1),
        560 => Some(MajorBody::Eupheme),
        561 => Some(MajorBody::S2003J19),
        562 => Some(MajorBody::Valetudo),
        563 => Some(MajorBody::S2017J2),
        564 => Some(MajorBody::S2017J3),
        565 => Some(MajorBody::Pandia),
        566 => Some(MajorBody::S2017J5),
        567 => Some(MajorBody::S2017J6),
        568 => Some(MajorBody::S2017J7),
        569 => Some(MajorBody::S2017J8),
        570 => Some(MajorBody::S2017J9),
        571 => Some(MajorBody::Ersa),
        572 => Some(MajorBody::S2011J1),
        599 => Some(MajorBody::Jupiter),
        601 => Some(MajorBody::Mimas),
        602 => Some(MajorBody::Enceladus),
        603 => Some(MajorBody::Tethys),
        604 => Some(MajorBody::Dione),
        605 => Some(MajorBody::Rhea),
        606 => Some(MajorBody::Titan),
        607 => Some(MajorBody::Hyperion),
        608 => Some(MajorBody::Iapetus),
        609 => Some(MajorBody::Phoebe),
        610 => Some(MajorBody::Janus),
        611 => Some(MajorBody::Epimetheus),
        612 => Some(MajorBody::Helene),
        613 => Some(MajorBody::Telesto),
        614 => Some(MajorBody::Calypso),
        615 => Some(MajorBody::Atlas),
        616 => Some(MajorBody::Prometheus),
        617 => Some(MajorBody::Pandora),
        618 => Some(MajorBody::Pan),
        619 => Some(MajorBody::Ymir),
        620 => Some(MajorBody::Paaliaq),
        621 => Some(MajorBody::Tarvos),
        622 => Some(MajorBody::Ijiraq),
        623 => Some(MajorBody::Suttungr),
        624 => Some(MajorBody::Kiviuq),
        625 => Some(MajorBody::Mundilfari),
        626 => Some(MajorBody::Albiorix),
        627 => Some(MajorBody::Skathi),
        628 => Some(MajorBody::Erriapus),
        629 => Some(MajorBody::Siarnaq),
        630 => Some(MajorBody::Thrymr),
        631 => Some(MajorBody::Narvi),
        632 => Some(MajorBody::Methone),
        633 => Some(MajorBody::Pallene),
        634 => Some(MajorBody::Polydeuces),
        635 => Some(MajorBody::Daphnis),
        636 => Some(MajorBody::Aegir),
        637 => Some(MajorBody::Bebhionn),
        638 => Some(MajorBody::Bergelmir),
        639 => Some(MajorBody::Bestla),
        640 => Some(MajorBody::Farbauti),
        641 => Some(MajorBody::Fenrir),
        642 => Some(MajorBody::Fornjot),
        643 => Some(MajorBody::Hati),
        644 => Some(MajorBody::Hyrrokkin),
        645 => Some(MajorBody::Kari),
        646 => Some(MajorBody::Loge),
        647 => Some(MajorBody::Skoll),
        648 => Some(MajorBody::Surtur),
        649 => Some(MajorBody::Anthe),
        650 => Some(MajorBody::Jarnsaxa),
        651 => Some(MajorBody::Greip),
        652 => Some(MajorBody::Tarqeq),
        653 => Some(MajorBody::Aegaeon),
        654 => Some(MajorBody::Gridr),
        655 => Some(MajorBody::Angrboda),
        656 => Some(MajorBody::Skrymir),
        657 => Some(MajorBody::Gerd),
        658 => Some(MajorBody::S2004S26),
        659 => Some(MajorBody::Eggther),
        660 => Some(MajorBody::S2004S29),
        661 => Some(MajorBody::Beli),
        662 => Some(MajorBody::Gunnlod),
        663 => Some(MajorBody::Thiazzi),
        664 => Some(MajorBody::S2004S34),
        665 => Some(MajorBody::Alvaldi),
        666 => Some(MajorBody::Geirrod),
        699 => Some(MajorBody::Saturn),
        701 => Some(MajorBody::Ariel),
        702 => Some(MajorBody::Umbriel),
        703 => Some(MajorBody::Titania),
        704 => Some(MajorBody::Oberon),
        705 => Some(MajorBody::Miranda),
        706 => Some(MajorBody::Cordelia),
        707 => Some(MajorBody::Ophelia),
        708 => Some(MajorBody::Bianca),
        709 => Some(MajorBody::Cressida),
        710 => Some(MajorBody::Desdemona),
        711 => Some(MajorBody::Juliet),
        712 => Some(MajorBody::Portia),
        713 => Some(MajorBody::Rosalind),
        714 => Some(MajorBody::Belinda),
        715 => Some(MajorBody::Puck),
        716 => Some(MajorBody::Caliban),
        717 => Some(MajorBody::Sycorax),
        718 => Some(MajorBody::Prospero),
        719 => Some(MajorBody::Setebos),
        720 => Some(MajorBody::Stephano),
        721 => Some(MajorBody::Trinculo),
        722 => Some(MajorBody::Francisco),
        723 => Some(MajorBody::Margaret),
        724 => Some(MajorBody::Ferdinand),
        725 => Some(MajorBody::Perdita),
        726 => Some(MajorBody::Mab),
        727 => Some(MajorBody::Cupid),
        799 => Some(MajorBody::Uranus),
        801 => Some(MajorBody::Triton),
        802 => Some(MajorBody::Nereid),
        803 => Some(MajorBody::Naiad),
        804 => Some(MajorBody::Thalassa),
        805 => Some(MajorBody::Despina),
        806 => Some(MajorBody::Galatea),
        807 => Some(MajorBody::Larissa),
        808 => Some(MajorBody::Proteus),
        809 => Some(MajorBody::Halimede),
        810 => Some(MajorBody::Psamathe),
        811 => Some(MajorBody::Sao),
        812 => Some(MajorBody::Laomedeia),
        813 => Some(MajorBody::Neso),
        814 => Some(MajorBody::Hippocamp),
        899 => Some(MajorBody::Neptune),
        901 => Some(MajorBody::Charon),
        902 => Some(MajorBody::Nix),
        903 => Some(MajorBody::Hydra),
        904 => Some(MajorBody::Kerberos),
        905 => Some(MajorBody::Styx),
        999 => Some(MajorBody::Pluto),
        3011 => Some(MajorBody::EM_L1),
        3012 => Some(MajorBody::EM_L2),
        3014 => Some(MajorBody::EM_L4),
        3015 => Some(MajorBody::EM_L5),
        55501 => Some(MajorBody::S2003J2),
        55502 => Some(MajorBody::S2003J4),
        55503 => Some(MajorBody::S2003J9),
        55504 => Some(MajorBody::S2003J10),
        55505 => Some(MajorBody::S2003J12),
        55506 => Some(MajorBody::S2003J16),
        55507 => Some(MajorBody::S2003J23),
        55508 => Some(MajorBody::S2003J24),
        65067 => Some(MajorBody::S2004S31),
        65070 => Some(MajorBody::S2004S24),
        65077 => Some(MajorBody::S2004S28),
        65079 => Some(MajorBody::S2004S21),
        65081 => Some(MajorBody::S2004S36),
        65082 => Some(MajorBody::S2004S37),
        65084 => Some(MajorBody::S2004S39),
        65085 => Some(MajorBody::S2004S7),
        65086 => Some(MajorBody::S2004S12),
        65087 => Some(MajorBody::S2004S13),
        65088 => Some(MajorBody::S2004S17),
        65089 => Some(MajorBody::S2006S1),
        65090 => Some(MajorBody::S2006S3),
        65091 => Some(MajorBody::S2007S2),
        65092 => Some(MajorBody::S2007S3),
        65093 => Some(MajorBody::S2019S1),
        _ => None,
    }
}

/// The result of looking up `n`: the body, or an error that carries `carried`.
pub open spec fn decode_result(n: int, carried: i64) -> Result<MajorBody, InvalidBodyCode> {
    match decode_body(n) {
        Some(b) => Ok(b),
        None => Err(InvalidBodyCode(carried)),
    }
}

/// Looking up the code of any body gives that body back.
pub proof fn lemma_decode_code(b: MajorBody)
    ensures
        decode_body(b.spec_code() as int) == Some(b),
        decode_result(b.spec_code() as int, b.spec_code() as i64) == Ok::<MajorBody, InvalidBodyCode>(b),
{
}

/// A lookup that succeeds gives a body with exactly the code looked up.
pub proof fn lemma_decode_sound(n: int)
    ensures
        decode_body(n) matches Some(b) ==> b.spec_code() == n,
{
}

/// An integer that is the code of no body is looked up as an error that
/// carries that integer.
pub proof fn lemma_absent_code(n: i64)
    requires
        forall|b: MajorBody| #[trigger] b.spec_code() != n,
    ensures
        decode_result(n as int, n) == Err::<MajorBody, InvalidBodyCode>(InvalidBodyCode(n)),
{
    lemma_decode_sound(n as int);
}

/// Two bodies with the same code are the same body.
pub proof fn lemma_code_injective(a: MajorBody, b: MajorBody)
    ensures
        a.spec_code() == b.spec_code() ==> a == b,
{
    lemma_decode_code(a);
    lemma_decode_code(b);
}

impl TryFrom<u32> for MajorBody {
    type Error = InvalidBodyCode;

    fn try_from(num: u32) -> (r: Result<MajorBody, InvalidBodyCode>) {
        MajorBody::from_code(num as i64)
    }
}

impl vstd::std_specs::convert::TryFromSpecImpl<u32> for MajorBody {
    open spec fn obeys_try_from_spec() -> bool {
        true
    }

    open spec fn try_from_spec(v: u32) -> Result<MajorBody, InvalidBodyCode> {
        decode_result(v as int, v as i64)
    }
}

impl TryFrom<u64> for MajorBody {
    type Error = InvalidBodyCode;

    fn try_from(num: u64) -> (r: Result<MajorBody, InvalidBodyCode>) {
        if num <= u32::MAX as u64 {
            MajorBody::from_code(num as i64)
        } else {
            Err(InvalidBodyCode(num as i64))
        }
    }
}

impl vstd::std_specs::convert::TryFromSpecImpl<u64> for MajorBody {
    open spec fn obeys_try_from_spec() -> bool {
        true
    }

    open spec fn try_from_spec(v: u64) -> Result<MajorBody, InvalidBodyCode> {
        decode_result(v as int, v as i64)
    }
}

impl TryFrom<u128> for MajorBody {
    type Error = InvalidBodyCode;

    fn try_from(num: u128) -> (r: Result<MajorBody, InvalidBodyCode>) {
        if num <= u32::MAX as u128 {
            MajorBody::from_code(num as i64)
        } else {
            Err(InvalidBodyCode(num as i64))
        }
    }
}

impl vstd::std_specs::convert::TryFromSpecImpl<u128> for MajorBody {
    open spec fn obeys_try_from_spec() -> bool {
        true
    }

    open spec fn try_from_spec(v: u128) -> Result<MajorBody, InvalidBodyCode> {
        decode_result(v as int, v as i64)
    }
}

impl TryFrom<usize> for MajorBody {
    type Error = InvalidBodyCode;

    fn try_from(num: usize) -> (r: Result<MajorBody, InvalidBodyCode>) {
        if num <= u32::MAX as usize {
            MajorBody::from_code(num as i64)
        } else {
            Err(InvalidBodyCode(num as i64))
        }
    }
}

impl vstd::std_specs::convert::TryFromSpecImpl<usize> for MajorBody {
    open spec fn obeys_try_from_spec() -> bool {
        true
    }

    open spec fn try_from_spec(v: usize) -> Result<MajorBody, InvalidBodyCode> {
        decode_result(v as int, v as i64)
    }
}

impl TryFrom<i32> for MajorBody {
    type Error = InvalidBodyCode;

    fn try_from(num: i32) -> (r: Result<MajorBody, InvalidBodyCode>) {
        MajorBody::from_code(num as i64)
    }
}

impl vstd::std_specs::convert::TryFromSpecImpl<i32> for MajorBody {
    open spec fn obeys_try_from_spec() -> bool {
        true
    }

    open spec fn try_from_spec(v: i32) -> Result<MajorBody, InvalidBodyCode> {
        decode_result(v as int, v as i64)
    }
}

impl TryFrom<i64> for MajorBody {
    type Error = InvalidBodyCode;

    fn try_from(num: i64) -> (r: Result<MajorBody, InvalidBodyCode>) {
        MajorBody::from_code(num)
    }
}

impl vstd::std_specs::convert::TryFromSpecImpl<i64> for MajorBody {
    open spec fn obeys_try_from_spec() -> bool {
        true
    }

    open spec fn try_from_spec(v: i64) -> Result<MajorBody, InvalidBodyCode> {
        decode_result(v as int, v as i64)
    }
}

impl TryFrom<i128> for MajorBody {
    type Error = InvalidBodyCode;

    fn try_from(num: i128) -> (r: Result<MajorBody, InvalidBodyCode>) {
        if 0 <= num && num <= 4294967295i128 {
            MajorBody::from_code(num as i64)
        } else {
            Err(InvalidBodyCode(num as i64))
        }
    }
}

impl vstd::std_specs::convert::TryFromSpecImpl<i128> for MajorBody {
    open spec fn obeys_try_from_spec() -> bool {
        true
    }

    open spec fn try_from_spec(v: i128) -> Result<MajorBody, InvalidBodyCode> {
        decode_result(v as int, v as i64)
    }
}

impl TryFrom<isize> for MajorBody {
    type Error = InvalidBodyCode;

    fn try_from(num: isize) -> (r: Result<MajorBody, InvalidBodyCode>) {
        MajorBody::from_code(num as i64)
    }
}

impl vstd::std_specs::convert::TryFromSpecImpl<isize> for MajorBody {
    open spec fn obeys_try_from_spec() -> bool {
        true
    }

    open spec fn try_from_spec(v: isize) -> Result<MajorBody, InvalidBodyCode> {
        decode_result(v as int, v as i64)
    }
}

impl From<MajorBody> for u32 {
    fn from(b: MajorBody) -> (r: u32) {
        b.code()
    }
}

impl vstd::std_specs::convert::FromSpecImpl<MajorBody> for u32 {
    open spec fn obeys_from_spec() -> bool {
        true
    }

    open spec fn from_spec(b: MajorBody) -> u32 {
        b.spec_code()
    }
}

impl From<&MajorBody> for u32 {
    fn from(b: &MajorBody) -> (r: u32) {
        b.code()
    }
}

impl vstd::std_specs::convert::FromSpecImpl<&MajorBody> for u32 {
    open spec fn obeys_from_spec() -> bool {
        true
    }

    open spec fn from_spec(b: &MajorBody) -> u32 {
        b.spec_code()
    }
}

} // verus!
