//! Builder: a car assembled step by step, with a director that runs the
//! steps for well-known configurations.

use vstd::prelude::*;

verus! {

/// The product: a car.
#[derive(Debug, Clone, PartialEq)]
pub struct Car {
    pub seats: u32,
    pub engine: String,
    pub trip_computer: bool,
    pub gps: bool,
}

/// The abstract value of a car: seats, engine name, trip computer, GPS.
pub open spec fn car_view(c: Car) -> (int, Seq<char>, bool, bool) {
    (c.seats as int, c.engine@, c.trip_computer, c.gps)
}

/// The value a builder starts from and returns to on reset.
pub open spec fn blank_car_view() -> (int, Seq<char>, bool, bool) {
    (0, Seq::<char>::empty(), false, false)
}

/// A car builder: each step sets one aspect of the car under
/// construction, and the result reflects exactly the steps taken.
pub trait CarBuilder: Sized {
    /// The abstract value of the car under construction.
    spec fn spec_car(&self) -> (int, Seq<char>, bool, bool);

    /// Starts over from a blank car.
    fn reset(&mut self)
        ensures
            final(self).spec_car() == blank_car_view(),
    ;

    /// Sets the number of seats.
    fn set_seats(&mut self, seats: u32)
        ensures
            final(self).spec_car() == (
                seats as int,
                old(self).spec_car().1,
                old(self).spec_car().2,
                old(self).spec_car().3,
            ),
    ;

    /// Sets the engine.
    fn set_engine(&mut self, engine: String)
        ensures
            final(self).spec_car() == (
                old(self).spec_car().0,
                engine@,
                old(self).spec_car().2,
                old(self).spec_car().3,
            ),
    ;

    /// Installs the trip computer.
    fn set_trip_computer(&mut self)
        ensures
            final(self).spec_car() == (
                old(self).spec_car().0,
                old(self).spec_car().1,
                true,
                old(self).spec_car().3,
            ),
    ;

    /// Installs the GPS.
    fn set_gps(&mut self)
        ensures
            final(self).spec_car() == (
                old(self).spec_car().0,
                old(self).spec_car().1,
                old(self).spec_car().2,
                true,
            ),
    ;

    /// Hands out the car built so far.
    fn get_result(&self) -> (car: Car)
        ensures
            car_view(car) == self.spec_car(),
    ;
}

/// The concrete builder, assembling a [`Car`] in place.
pub struct ConcreteCarBuilder {
    car: Car,
}

impl ConcreteCarBuilder {
    /// A builder holding a blank car.
    pub fn new() -> (b: ConcreteCarBuilder)
        ensures
            b.spec_car() == blank_car_view(),
    {
        ConcreteCarBuilder {
            car: Car { seats: 0, engine: String::new(), trip_computer: false, gps: false },
        }
    }
}

impl CarBuilder for ConcreteCarBuilder {
    closed spec fn spec_car(&self) -> (int, Seq<char>, bool, bool) {
        car_view(self.car)
    }

    fn reset(&mut self) {
        self.car = Car { seats: 0, engine: String::new(), trip_computer: false, gps: false };
    }

    fn set_seats(&mut self, seats: u32) {
        self.car.seats = seats;
    }

    fn set_engine(&mut self, engine: String) {
        self.car.engine = engine;
    }

    fn set_trip_computer(&mut self) {
        self.car.trip_computer = true;
    }

    fn set_gps(&mut self) {
        self.car.gps = true;
    }

    fn get_result(&self) -> (car: Car) {
        Car {
            seats: self.car.seats,
            engine: self.car.engine.clone(),
            trip_computer: self.car.trip_computer,
            gps: self.car.gps,
        }
    }
}

/// The director: runs the building steps for named configurations.
pub struct Director<B: CarBuilder> {
    pub builder: B,
}

impl<B: CarBuilder> Director<B> {
    pub fn new(builder: B) -> (d: Director<B>)
        ensures
            d.builder == builder,
    {
        Director { builder }
    }

    /// A two-seat sports car with a sport engine and all extras.
    pub fn construct_sports_car(&mut self) -> (car: Car)
        ensures
            car_view(car) == (2int, "SportEngine"@, true, true),
    {
        self.builder.reset();
        self.builder.set_seats(2);
        self.builder.set_engine("SportEngine".to_owned());
        self.builder.set_trip_computer();
        self.builder.set_gps();
        self.builder.get_result()
    }

    /// A four-seat SUV with GPS and no trip computer.
    pub fn construct_suv(&mut self) -> (car: Car)
        ensures
            car_view(car) == (4int, "SUVEngine"@, false, true),
    {
        self.builder.reset();
        self.builder.set_seats(4);
        self.builder.set_engine("SUVEngine".to_owned());
        self.builder.set_gps();
        self.builder.get_result()
    }
}

} // verus!
