//! Lines (routes) and their transport modes.
use crate::model::types::ColorType;
use crate::text::text_eq;
use vstd::prelude::*;

verus! {

/// Mode of transport of a journey or a line.
#[derive(Debug, Clone, Copy, PartialEq, Eq, Structural)]
pub enum TransportMode {
    Underground,
    Bus,
    Funicular,
    Ship,
    Tramway,
    Rail,
    CableWay,
    Lift,
    Chairlift,
    RackRailroad,
    Unknown,
}

impl TransportMode {
    /// The mode a token names: the one-letter timetable codes and the
    /// variant names; any other token is `Unknown`.
    pub open spec fn of_token(s: Seq<char>) -> TransportMode {
        if s == "A"@ {
            TransportMode::Lift
        } else if s == "B"@ {
            TransportMode::Bus
        } else if s == "E"@ {
            TransportMode::Chairlift
        } else if s == "H"@ {
            TransportMode::RackRailroad
        } else if s == "L"@ {
            TransportMode::CableWay
        } else if s == "M"@ {
            TransportMode::Underground
        } else if s == "N"@ {
            TransportMode::Funicular
        } else if s == "S"@ {
            TransportMode::Ship
        } else if s == "T"@ {
            TransportMode::Tramway
        } else if s == "U"@ {
            TransportMode::Unknown
        } else if s == "Z"@ {
            TransportMode::Rail
        } else if s == "Lift"@ {
            TransportMode::Lift
        } else if s == "Bus"@ {
            TransportMode::Bus
        } else if s == "Chairlift"@ {
            TransportMode::Chairlift
        } else if s == "RackRailroad"@ {
            TransportMode::RackRailroad
        } else if s == "CableWay"@ {
            TransportMode::CableWay
        } else if s == "Underground"@ {
            TransportMode::Underground
        } else if s == "Funicular"@ {
            TransportMode::Funicular
        } else if s == "Ship"@ {
            TransportMode::Ship
        } else if s == "Tramway"@ {
            TransportMode::Tramway
        } else if s == "Unknown"@ {
            TransportMode::Unknown
        } else if s == "Rail"@ {
            TransportMode::Rail
        } else {
            TransportMode::Unknown
        }
    }

    /// The mode that a detailed line description belongs to.
    pub open spec fn of_description(d: LineDescription) -> TransportMode {
        match d {
            LineDescription::Lift => TransportMode::Lift,
            LineDescription::Bus => TransportMode::Bus,
            LineDescription::PanoramaBus => TransportMode::Bus,
            LineDescription::Nightbus => TransportMode::Bus,
            LineDescription::NationalLongDistanceBus => TransportMode::Bus,
            LineDescription::InternationalLongDistanceBus => TransportMode::Bus,
            LineDescription::SemiFastBus => TransportMode::Bus,
            LineDescription::ExpressBus => TransportMode::Bus,
            LineDescription::IntercityBus => TransportMode::Bus,
            LineDescription::Minibus => TransportMode::Bus,
            LineDescription::NightBus => TransportMode::Bus,
            LineDescription::LowFloorBus => TransportMode::Bus,
            LineDescription::LowFloorTrolleyBus => TransportMode::Bus,
            LineDescription::OnCallBus => TransportMode::Bus,
            LineDescription::Taxi => TransportMode::Bus,
            LineDescription::Chairlift => TransportMode::Chairlift,
            LineDescription::RackRailroad => TransportMode::RackRailroad,
            LineDescription::GondolaLift => TransportMode::CableWay,
            LineDescription::Cableway => TransportMode::CableWay,
            LineDescription::AerialTramway => TransportMode::CableWay,
            LineDescription::Underground => TransportMode::Underground,
            LineDescription::Funicular => TransportMode::Funicular,
            LineDescription::Ship => TransportMode::Ship,
            LineDescription::SteamShip => TransportMode::Ship,
            LineDescription::FerryBoat => TransportMode::Ship,
            LineDescription::Katamaran => TransportMode::Ship,
            LineDescription::LowFloorTramway => TransportMode::Tramway,
            LineDescription::Tramway => TransportMode::Tramway,
            LineDescription::Nighttram => TransportMode::Tramway,
            LineDescription::Aircraft => TransportMode::Unknown,
            LineDescription::UnknownMode => TransportMode::Unknown,
            LineDescription::Agencytrain => TransportMode::Rail,
            LineDescription::Arco => TransportMode::Rail,
            LineDescription::CarCarryingTrain => TransportMode::Rail,
            LineDescription::CarTrain => TransportMode::Rail,
            LineDescription::Altaria => TransportMode::Rail,
            LineDescription::AltaVelocidadES => TransportMode::Rail,
            LineDescription::BerninaExpress => TransportMode::Rail,
            LineDescription::CityAirportTrain => TransportMode::Rail,
            LineDescription::CityNightLine => TransportMode::Rail,
            LineDescription::FastTrain => TransportMode::Rail,
            LineDescription::SemiFastTrain => TransportMode::Rail,
            LineDescription::EuroCity => TransportMode::Rail,
            LineDescription::Euromed => TransportMode::Rail,
            LineDescription::EuroNight => TransportMode::Rail,
            LineDescription::EurostarItalia => TransportMode::Rail,
            LineDescription::Eurostar => TransportMode::Rail,
            LineDescription::SpecialTrain => TransportMode::Rail,
            LineDescription::GlacierExpress => TransportMode::Rail,
            LineDescription::InterCity => TransportMode::Rail,
            LineDescription::InterCityExpress => TransportMode::Rail,
            LineDescription::ICTiltingTrain => TransportMode::Rail,
            LineDescription::InterCityNight => TransportMode::Rail,
            LineDescription::InterRegio => TransportMode::Rail,
            LineDescription::InterregioExpress => TransportMode::Rail,
            LineDescription::Italo => TransportMode::Rail,
            LineDescription::JailTrain => TransportMode::Rail,
            LineDescription::EmptyMaterialTrain => TransportMode::Rail,
            LineDescription::EmptyMaterialTrainWithPassengerTransport => TransportMode::Rail,
            LineDescription::Nightjet => TransportMode::Rail,
            LineDescription::NightTrain => TransportMode::Rail,
            LineDescription::NoGuaranteedTrain => TransportMode::Rail,
            LineDescription::PanoramaExpress => TransportMode::Rail,
            LineDescription::Regio => TransportMode::Rail,
            LineDescription::RegionalTrain => TransportMode::Rail,
            LineDescription::RegioExpress => TransportMode::Rail,
            LineDescription::Railjet => TransportMode::Rail,
            LineDescription::RailjetXpress => TransportMode::Rail,
            LineDescription::UrbanTrain => TransportMode::Rail,
            LineDescription::NightUrbanTrain => TransportMode::Rail,
            LineDescription::CityRailway => TransportMode::Rail,
            LineDescription::Talgo => TransportMode::Rail,
            LineDescription::TrainExpressRegional => TransportMode::Rail,
            LineDescription::TER200 => TransportMode::Rail,
            LineDescription::TrainGrandeVit => TransportMode::Rail,
            LineDescription::Thalys => TransportMode::Rail,
            LineDescription::TwojeLinieKolejowe => TransportMode::Rail,
            LineDescription::UrlaubsExpress => TransportMode::Rail,
            LineDescription::VoralpenExpress => TransportMode::Rail,
            LineDescription::Westbahn => TransportMode::Rail,
            LineDescription::InterConnex => TransportMode::Rail,
            LineDescription::X2000TiltingTrain => TransportMode::Rail,
            LineDescription::TrainCategoryUnknown => TransportMode::Rail,
        }
    }

    /// Groups a detailed line description into its transport mode.
    pub fn from_description(description: &LineDescription) -> (r: Self)
        ensures
            r == Self::of_description(*description),
    {
        match description {
            LineDescription::Lift => TransportMode::Lift,
            LineDescription::Bus => TransportMode::Bus,
            LineDescription::PanoramaBus => TransportMode::Bus,
            LineDescription::Nightbus => TransportMode::Bus,
            LineDescription::NationalLongDistanceBus => TransportMode::Bus,
            LineDescription::InternationalLongDistanceBus => TransportMode::Bus,
            LineDescription::SemiFastBus => TransportMode::Bus,
            LineDescription::ExpressBus => TransportMode::Bus,
            LineDescription::IntercityBus => TransportMode::Bus,
            LineDescription::Minibus => TransportMode::Bus,
            LineDescription::NightBus => TransportMode::Bus,
            LineDescription::LowFloorBus => TransportMode::Bus,
            LineDescription::LowFloorTrolleyBus => TransportMode::Bus,
            LineDescription::OnCallBus => TransportMode::Bus,
            LineDescription::Taxi => TransportMode::Bus,
            LineDescription::Chairlift => TransportMode::Chairlift,
            LineDescription::RackRailroad => TransportMode::RackRailroad,
            LineDescription::GondolaLift => TransportMode::CableWay,
            LineDescription::Cableway => TransportMode::CableWay,
            LineDescription::AerialTramway => TransportMode::CableWay,
            LineDescription::Underground => TransportMode::Underground,
            LineDescription::Funicular => TransportMode::Funicular,
            LineDescription::Ship => TransportMode::Ship,
            LineDescription::SteamShip => TransportMode::Ship,
            LineDescription::FerryBoat => TransportMode::Ship,
            LineDescription::Katamaran => TransportMode::Ship,
            LineDescription::LowFloorTramway => TransportMode::Tramway,
            LineDescription::Tramway => TransportMode::Tramway,
            LineDescription::Nighttram => TransportMode::Tramway,
            LineDescription::Aircraft => TransportMode::Unknown,
            LineDescription::UnknownMode => TransportMode::Unknown,
            LineDescription::Agencytrain => TransportMode::Rail,
            LineDescription::Arco => TransportMode::Rail,
            LineDescription::CarCarryingTrain => TransportMode::Rail,
            LineDescription::CarTrain => TransportMode::Rail,
            LineDescription::Altaria => TransportMode::Rail,
            LineDescription::AltaVelocidadES => TransportMode::Rail,
            LineDescription::BerninaExpress => TransportMode::Rail,
            LineDescription::CityAirportTrain => TransportMode::Rail,
            LineDescription::CityNightLine => TransportMode::Rail,
            LineDescription::FastTrain => TransportMode::Rail,
            LineDescription::SemiFastTrain => TransportMode::Rail,
            LineDescription::EuroCity => TransportMode::Rail,
            LineDescription::Euromed => TransportMode::Rail,
            LineDescription::EuroNight => TransportMode::Rail,
            LineDescription::EurostarItalia => TransportMode::Rail,
            LineDescription::Eurostar => TransportMode::Rail,
            LineDescription::SpecialTrain => TransportMode::Rail,
            LineDescription::GlacierExpress => TransportMode::Rail,
            LineDescription::InterCity => TransportMode::Rail,
            LineDescription::InterCityExpress => TransportMode::Rail,
            LineDescription::ICTiltingTrain => TransportMode::Rail,
            LineDescription::InterCityNight => TransportMode::Rail,
            LineDescription::InterRegio => TransportMode::Rail,
            LineDescription::InterregioExpress => TransportMode::Rail,
            LineDescription::Italo => TransportMode::Rail,
            LineDescription::JailTrain => TransportMode::Rail,
            LineDescription::EmptyMaterialTrain => TransportMode::Rail,
            LineDescription::EmptyMaterialTrainWithPassengerTransport => TransportMode::Rail,
            LineDescription::Nightjet => TransportMode::Rail,
            LineDescription::NightTrain => TransportMode::Rail,
            LineDescription::NoGuaranteedTrain => TransportMode::Rail,
            LineDescription::PanoramaExpress => TransportMode::Rail,
            LineDescription::Regio => TransportMode::Rail,
            LineDescription::RegionalTrain => TransportMode::Rail,
            LineDescription::RegioExpress => TransportMode::Rail,
            LineDescription::Railjet => TransportMode::Rail,
            LineDescription::RailjetXpress => TransportMode::Rail,
            LineDescription::UrbanTrain => TransportMode::Rail,
            LineDescription::NightUrbanTrain => TransportMode::Rail,
            LineDescription::CityRailway => TransportMode::Rail,
            LineDescription::Talgo => TransportMode::Rail,
            LineDescription::TrainExpressRegional => TransportMode::Rail,
            LineDescription::TER200 => TransportMode::Rail,
            LineDescription::TrainGrandeVit => TransportMode::Rail,
            LineDescription::Thalys => TransportMode::Rail,
            LineDescription::TwojeLinieKolejowe => TransportMode::Rail,
            LineDescription::UrlaubsExpress => TransportMode::Rail,
            LineDescription::VoralpenExpress => TransportMode::Rail,
            LineDescription::Westbahn => TransportMode::Rail,
            LineDescription::InterConnex => TransportMode::Rail,
            LineDescription::X2000TiltingTrain => TransportMode::Rail,
            LineDescription::TrainCategoryUnknown => TransportMode::Rail,
        }
    }

    /// Reads a transport mode; an unrecognised token gives `Unknown`, never an error.
    pub fn from_str(s: &str) -> (r: Result<Self, ()>)
        ensures
            r == Ok::<TransportMode, ()>(Self::of_token(s@)),
    {
        if text_eq(s, "A") {
            Ok(Self::Lift)
        } else if text_eq(s, "B") {
            Ok(Self::Bus)
        } else if text_eq(s, "E") {
            Ok(Self::Chairlift)
        } else if text_eq(s, "H") {
            Ok(Self::RackRailroad)
        } else if text_eq(s, "L") {
            Ok(Self::CableWay)
        } else if text_eq(s, "M") {
            Ok(Self::Underground)
        } else if text_eq(s, "N") {
            Ok(Self::Funicular)
        } else if text_eq(s, "S") {
            Ok(Self::Ship)
        } else if text_eq(s, "T") {
            Ok(Self::Tramway)
        } else if text_eq(s, "U") {
            Ok(Self::Unknown)
        } else if text_eq(s, "Z") {
            Ok(Self::Rail)
        } else if text_eq(s, "Lift") {
            Ok(Self::Lift)
        } else if text_eq(s, "Bus") {
            Ok(Self::Bus)
        } else if text_eq(s, "Chairlift") {
            Ok(Self::Chairlift)
        } else if text_eq(s, "RackRailroad") {
            Ok(Self::RackRailroad)
        } else if text_eq(s, "CableWay") {
            Ok(Self::CableWay)
        } else if text_eq(s, "Underground") {
            Ok(Self::Underground)
        } else if text_eq(s, "Funicular") {
            Ok(Self::Funicular)
        } else if text_eq(s, "Ship") {
            Ok(Self::Ship)
        } else if text_eq(s, "Tramway") {
            Ok(Self::Tramway)
        } else if text_eq(s, "Unknown") {
            Ok(Self::Unknown)
        } else if text_eq(s, "Rail") {
            Ok(Self::Rail)
        } else {
            Ok(Self::Unknown)
        }
    }
}

/// Detailed category of a line, as published in the route catalogue.
#[derive(Debug, Clone, Copy, PartialEq, Eq, Structural)]
pub enum LineDescription {
    Lift,
    Bus,
    Nightbus,
    PanoramaBus,
    NationalLongDistanceBus,
    InternationalLongDistanceBus,
    SemiFastBus,
    ExpressBus,
    IntercityBus,
    Minibus,
    NightBus,
    LowFloorBus,
    LowFloorTrolleyBus,
    OnCallBus,
    Taxi,
    Chairlift,
    RackRailroad,
    GondolaLift,
    Cableway,
    AerialTramway,
    Underground,
    Funicular,
    Ship,
    SteamShip,
    FerryBoat,
    Katamaran,
    LowFloorTramway,
    Tramway,
    Nighttram,
    Aircraft,
    UnknownMode,
    Agencytrain,
    Arco,
    CarCarryingTrain,
    CarTrain,
    Altaria,
    AltaVelocidadES,
    BerninaExpress,
    CityAirportTrain,
    CityNightLine,
    FastTrain,
    SemiFastTrain,
    EuroCity,
    Euromed,
    EuroNight,
    EurostarItalia,
    Eurostar,
    SpecialTrain,
    GlacierExpress,
    InterCity,
    InterCityExpress,
    ICTiltingTrain,
    InterCityNight,
    InterRegio,
    InterregioExpress,
    Italo,
    JailTrain,
    EmptyMaterialTrain,
    EmptyMaterialTrainWithPassengerTransport,
    Nightjet,
    NightTrain,
    NoGuaranteedTrain,
    PanoramaExpress,
    Regio,
    RegionalTrain,
    RegioExpress,
    Railjet,
    RailjetXpress,
    UrbanTrain,
    NightUrbanTrain,
    CityRailway,
    Talgo,
    TrainExpressRegional,
    TER200,
    TrainGrandeVit,
    Thalys,
    TwojeLinieKolejowe,
    UrlaubsExpress,
    VoralpenExpress,
    Westbahn,
    InterConnex,
    X2000TiltingTrain,
    TrainCategoryUnknown,
}

impl LineDescription {
    /// The category a catalogue code names; any other code is `UnknownMode`.
    pub open spec fn of_code(s: Seq<char>) -> LineDescription {
        if s == "ASC"@ {
            LineDescription::Lift
        } else if s == "B"@ {
            LineDescription::Bus
        } else if s == "BN"@ {
            LineDescription::Nightbus
        } else if s == "BP"@ {
            LineDescription::PanoramaBus
        } else if s == "BUS"@ {
            LineDescription::Bus
        } else if s == "CAR"@ {
            LineDescription::NationalLongDistanceBus
        } else if s == "CAX"@ {
            LineDescription::InternationalLongDistanceBus
        } else if s == "EB"@ {
            LineDescription::SemiFastBus
        } else if s == "EXB"@ {
            LineDescription::ExpressBus
        } else if s == "ICB"@ {
            LineDescription::IntercityBus
        } else if s == "KB"@ {
            LineDescription::Minibus
        } else if s == "NB"@ {
            LineDescription::NightBus
        } else if s == "NFB"@ {
            LineDescription::LowFloorBus
        } else if s == "NFO"@ {
            LineDescription::LowFloorTrolleyBus
        } else if s == "RUB"@ {
            LineDescription::OnCallBus
        } else if s == "TX"@ {
            LineDescription::Taxi
        } else if s == "SL"@ {
            LineDescription::Chairlift
        } else if s == "CC"@ {
            LineDescription::RackRailroad
        } else if s == "GB"@ {
            LineDescription::GondolaLift
        } else if s == "LB"@ {
            LineDescription::Cableway
        } else if s == "PB"@ {
            LineDescription::AerialTramway
        } else if s == "M"@ {
            LineDescription::Underground
        } else if s == "FUN"@ {
            LineDescription::Funicular
        } else if s == "BAT"@ {
            LineDescription::Ship
        } else if s == "BAV"@ {
            LineDescription::SteamShip
        } else if s == "FAE"@ {
            LineDescription::FerryBoat
        } else if s == "KAT"@ {
            LineDescription::Katamaran
        } else if s == "NFT"@ {
            LineDescription::LowFloorTramway
        } else if s == "T"@ {
            LineDescription::Tramway
        } else if s == "TN"@ {
            LineDescription::Nighttram
        } else if s == "AIR"@ {
            LineDescription::Aircraft
        } else if s == "UUU"@ {
            LineDescription::UnknownMode
        } else if s == "AG"@ {
            LineDescription::Agencytrain
        } else if s == "ARC"@ {
            LineDescription::Arco
        } else if s == "ARZ"@ {
            LineDescription::CarCarryingTrain
        } else if s == "AT"@ {
            LineDescription::CarTrain
        } else if s == "ATR"@ {
            LineDescription::Altaria
        } else if s == "ATZ"@ {
            LineDescription::CarTrain
        } else if s == "AVE"@ {
            LineDescription::AltaVelocidadES
        } else if s == "BEX"@ {
            LineDescription::BerninaExpress
        } else if s == "CAT"@ {
            LineDescription::CityAirportTrain
        } else if s == "CNL"@ {
            LineDescription::CityNightLine
        } else if s == "D"@ {
            LineDescription::FastTrain
        } else if s == "E"@ {
            LineDescription::SemiFastTrain
        } else if s == "EC"@ {
            LineDescription::EuroCity
        } else if s == "EM"@ {
            LineDescription::Euromed
        } else if s == "EN"@ {
            LineDescription::EuroNight
        } else if s == "ES"@ {
            LineDescription::EurostarItalia
        } else if s == "EST"@ {
            LineDescription::Eurostar
        } else if s == "EXT"@ {
            LineDescription::SpecialTrain
        } else if s == "GEX"@ {
            LineDescription::GlacierExpress
        } else if s == "IC"@ {
            LineDescription::InterCity
        } else if s == "ICE"@ {
            LineDescription::InterCityExpress
        } else if s == "ICN"@ {
            LineDescription::ICTiltingTrain
        } else if s == "IN"@ {
            LineDescription::InterCityNight
        } else if s == "IR"@ {
            LineDescription::InterRegio
        } else if s == "IRE"@ {
            LineDescription::InterregioExpress
        } else if s == "IT"@ {
            LineDescription::Italo
        } else if s == "JAT"@ {
            LineDescription::JailTrain
        } else if s == "MAT"@ {
            LineDescription::EmptyMaterialTrain
        } else if s == "MP"@ {
            LineDescription::EmptyMaterialTrainWithPassengerTransport
        } else if s == "NJ"@ {
            LineDescription::Nightjet
        } else if s == "NZ"@ {
            LineDescription::NightTrain
        } else if s == "P"@ {
            LineDescription::NoGuaranteedTrain
        } else if s == "PE"@ {
            LineDescription::PanoramaExpress
        } else if s == "R"@ {
            LineDescription::Regio
        } else if s == "RB"@ {
            LineDescription::RegionalTrain
        } else if s == "RE"@ {
            LineDescription::RegioExpress
        } else if s == "RJ"@ {
            LineDescription::Railjet
        } else if s == "RJX"@ {
            LineDescription::RailjetXpress
        } else if s == "S"@ {
            LineDescription::UrbanTrain
        } else if s == "SN"@ {
            LineDescription::NightUrbanTrain
        } else if s == "STB"@ {
            LineDescription::CityRailway
        } else if s == "TAL"@ {
            LineDescription::Talgo
        } else if s == "TER"@ {
            LineDescription::TrainExpressRegional
        } else if s == "TE2"@ {
            LineDescription::TER200
        } else if s == "TGV"@ {
            LineDescription::TrainGrandeVit
        } else if s == "THA"@ {
            LineDescription::Thalys
        } else if s == "TLK"@ {
            LineDescription::TwojeLinieKolejowe
        } else if s == "UEX"@ {
            LineDescription::UrlaubsExpress
        } else if s == "VAE"@ {
            LineDescription::VoralpenExpress
        } else if s == "WB"@ {
            LineDescription::Westbahn
        } else if s == "X"@ {
            LineDescription::InterConnex
        } else if s == "X2"@ {
            LineDescription::X2000TiltingTrain
        } else if s == "ZUG"@ {
            LineDescription::TrainCategoryUnknown
        } else {
            LineDescription::UnknownMode
        }
    }

    /// Reads a catalogue code; an unrecognised code gives `UnknownMode`.
    pub fn from_code(s: &str) -> (r: Self)
        ensures
            r == Self::of_code(s@),
    {
        if text_eq(s, "ASC") {
            Self::Lift
        } else if text_eq(s, "B") {
            Self::Bus
        } else if text_eq(s, "BN") {
            Self::Nightbus
        } else if text_eq(s, "BP") {
            Self::PanoramaBus
        } else if text_eq(s, "BUS") {
            Self::Bus
        } else if text_eq(s, "CAR") {
            Self::NationalLongDistanceBus
        } else if text_eq(s, "CAX") {
            Self::InternationalLongDistanceBus
        } else if text_eq(s, "EB") {
            Self::SemiFastBus
        } else if text_eq(s, "EXB") {
            Self::ExpressBus
        } else if text_eq(s, "ICB") {
            Self::IntercityBus
        } else if text_eq(s, "KB") {
            Self::Minibus
        } else if text_eq(s, "NB") {
            Self::NightBus
        } else if text_eq(s, "NFB") {
            Self::LowFloorBus
        } else if text_eq(s, "NFO") {
            Self::LowFloorTrolleyBus
        } else if text_eq(s, "RUB") {
            Self::OnCallBus
        } else if text_eq(s, "TX") {
            Self::Taxi
        } else if text_eq(s, "SL") {
            Self::Chairlift
        } else if text_eq(s, "CC") {
            Self::RackRailroad
        } else if text_eq(s, "GB") {
            Self::GondolaLift
        } else if text_eq(s, "LB") {
            Self::Cableway
        } else if text_eq(s, "PB") {
            Self::AerialTramway
        } else if text_eq(s, "M") {
            Self::Underground
        } else if text_eq(s, "FUN") {
            Self::Funicular
        } else if text_eq(s, "BAT") {
            Self::Ship
        } else if text_eq(s, "BAV") {
            Self::SteamShip
        } else if text_eq(s, "FAE") {
            Self::FerryBoat
        } else if text_eq(s, "KAT") {
            Self::Katamaran
        } else if text_eq(s, "NFT") {
            Self::LowFloorTramway
        } else if text_eq(s, "T") {
            Self::Tramway
        } else if text_eq(s, "TN") {
            Self::Nighttram
        } else if text_eq(s, "AIR") {
            Self::Aircraft
        } else if text_eq(s, "UUU") {
            Self::UnknownMode
        } else if text_eq(s, "AG") {
            Self::Agencytrain
        } else if text_eq(s, "ARC") {
            Self::Arco
        } else if text_eq(s, "ARZ") {
            Self::CarCarryingTrain
        } else if text_eq(s, "AT") {
            Self::CarTrain
        } else if text_eq(s, "ATR") {
            Self::Altaria
        } else if text_eq(s, "ATZ") {
            Self::CarTrain
        } else if text_eq(s, "AVE") {
            Self::AltaVelocidadES
        } else if text_eq(s, "BEX") {
            Self::BerninaExpress
        } else if text_eq(s, "CAT") {
            Self::CityAirportTrain
        } else if text_eq(s, "CNL") {
            Self::CityNightLine
        } else if text_eq(s, "D") {
            Self::FastTrain
        } else if text_eq(s, "E") {
            Self::SemiFastTrain
        } else if text_eq(s, "EC") {
            Self::EuroCity
        } else if text_eq(s, "EM") {
            Self::Euromed
        } else if text_eq(s, "EN") {
            Self::EuroNight
        } else if text_eq(s, "ES") {
            Self::EurostarItalia
        } else if text_eq(s, "EST") {
            Self::Eurostar
        } else if text_eq(s, "EXT") {
            Self::SpecialTrain
        } else if text_eq(s, "GEX") {
            Self::GlacierExpress
        } else if text_eq(s, "IC") {
            Self::InterCity
        } else if text_eq(s, "ICE") {
            Self::InterCityExpress
        } else if text_eq(s, "ICN") {
            Self::ICTiltingTrain
        } else if text_eq(s, "IN") {
            Self::InterCityNight
        } else if text_eq(s, "IR") {
            Self::InterRegio
        } else if text_eq(s, "IRE") {
            Self::InterregioExpress
        } else if text_eq(s, "IT") {
            Self::Italo
        } else if text_eq(s, "JAT") {
            Self::JailTrain
        } else if text_eq(s, "MAT") {
            Self::EmptyMaterialTrain
        } else if text_eq(s, "MP") {
            Self::EmptyMaterialTrainWithPassengerTransport
        } else if text_eq(s, "NJ") {
            Self::Nightjet
        } else if text_eq(s, "NZ") {
            Self::NightTrain
        } else if text_eq(s, "P") {
            Self::NoGuaranteedTrain
        } else if text_eq(s, "PE") {
            Self::PanoramaExpress
        } else if text_eq(s, "R") {
            Self::Regio
        } else if text_eq(s, "RB") {
            Self::RegionalTrain
        } else if text_eq(s, "RE") {
            Self::RegioExpress
        } else if text_eq(s, "RJ") {
            Self::Railjet
        } else if text_eq(s, "RJX") {
            Self::RailjetXpress
        } else if text_eq(s, "S") {
            Self::UrbanTrain
        } else if text_eq(s, "SN") {
            Self::NightUrbanTrain
        } else if text_eq(s, "STB") {
            Self::CityRailway
        } else if text_eq(s, "TAL") {
            Self::Talgo
        } else if text_eq(s, "TER") {
            Self::TrainExpressRegional
        } else if text_eq(s, "TE2") {
            Self::TER200
        } else if text_eq(s, "TGV") {
            Self::TrainGrandeVit
        } else if text_eq(s, "THA") {
            Self::Thalys
        } else if text_eq(s, "TLK") {
            Self::TwojeLinieKolejowe
        } else if text_eq(s, "UEX") {
            Self::UrlaubsExpress
        } else if text_eq(s, "VAE") {
            Self::VoralpenExpress
        } else if text_eq(s, "WB") {
            Self::Westbahn
        } else if text_eq(s, "X") {
            Self::InterConnex
        } else if text_eq(s, "X2") {
            Self::X2000TiltingTrain
        } else if text_eq(s, "ZUG") {
            Self::TrainCategoryUnknown
        } else {
            Self::UnknownMode
        }
    }
}

/// A line of the catalogue: its number, short name and colour.
pub struct Line {
    pub id: i32,
    pub name: String,
    pub color_type: ColorType,
    pub color: String,
}

/// What a line holds, with its texts as character sequences.
pub ghost struct LineView {
    pub id: i32,
    pub name: Seq<char>,
    pub color_type: ColorType,
    pub color: Seq<char>,
}

impl View for Line {
    type V = LineView;

    open spec fn view(&self) -> LineView {
        LineView { id: self.id, name: self.name@, color_type: self.color_type, color: self.color@ }
    }
}

} // verus!
