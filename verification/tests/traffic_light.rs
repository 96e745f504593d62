use ledger_modules::traffic_light::{LightOn, TrafficLight, WrongLight};
use std::time::Duration;

#[test]
fn test_light_on() {
    let tname = "TrafficLight";

    let mut durs;
    let mut light = TrafficLight::Red;
    durs = light.light_on();
    println!("{}-{} {:?}", tname, light.to_string(), durs);

    light = "green".parse().unwrap();
    durs = light.light_on();
    println!("{}-{} {:?}", tname, light.to_string(), durs);

    assert_eq!(light, TrafficLight::Green);

    light = TrafficLight::Yellow;
    durs = light.light_on();
    println!("{}-{} {:?}", tname, light.to_string(), durs);
}

#[test]
fn each_colour_stays_on_for_its_time() {
    assert_eq!(TrafficLight::Red.light_on(), Duration::from_secs(11));
    assert_eq!(TrafficLight::Green.light_on(), Duration::from_secs(13));
    assert_eq!(TrafficLight::Yellow.light_on(), Duration::from_secs(2));
}

#[test]
fn light_starts_red() {
    assert_eq!(TrafficLight::default(), TrafficLight::Red);
}

#[test]
fn colours_are_named_in_lower_case() {
    assert_eq!(TrafficLight::parse("red"), Ok(TrafficLight::Red));
    assert_eq!(TrafficLight::parse("green"), Ok(TrafficLight::Green));
    assert_eq!(TrafficLight::parse("yellow"), Ok(TrafficLight::Yellow));
    assert_eq!(TrafficLight::parse("Red"), Err(WrongLight));
    assert_eq!(TrafficLight::parse(""), Err(WrongLight));
    assert_eq!(TrafficLight::parse("red "), Err(WrongLight));
    assert_eq!("yellow".parse::<TrafficLight>(), Ok(TrafficLight::Yellow));
    assert_eq!("blue".parse::<TrafficLight>(), Err(WrongLight));
    assert_eq!(WrongLight.to_string(), "wrong light");
}

#[test]
fn colours_are_written_as_in_code() {
    assert_eq!(TrafficLight::Red.to_string(), "Red");
    assert_eq!(TrafficLight::Green.to_string(), "Green");
    assert_eq!(TrafficLight::Yellow.to_string(), "Yellow");
}
