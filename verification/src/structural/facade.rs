//! Facade: one home-theater interface over five subsystems; watching a
//! film runs their steps in a fixed order.

use vstd::prelude::*;
use crate::textutil::i32_to_string;
use crate::textutil::spec_decimal_signed;

verus! {

/// The amplifier subsystem.
pub struct Amplifier;

impl Amplifier {
    pub fn on(&self) -> (r: String)
        ensures
            r@ == "Усилитель включен"@,
    {
        "Усилитель включен".to_owned()
    }

    pub fn off(&self) -> (r: String)
        ensures
            r@ == "Усилитель выключен"@,
    {
        "Усилитель выключен".to_owned()
    }

    pub fn set_volume(&self, level: i32) -> (r: String)
        ensures
            r@ == "Громкость усилителя установлена на "@ + spec_decimal_signed(level as int),
    {
        let mut s = "Громкость усилителя установлена на ".to_owned();
        s.append(i32_to_string(level).as_str());
        s
    }
}

/// The DVD player subsystem.
pub struct DvdPlayer;

impl DvdPlayer {
    pub fn on(&self) -> (r: String)
        ensures
            r@ == "DVD-проигрыватель включен"@,
    {
        "DVD-проигрыватель включен".to_owned()
    }

    pub fn off(&self) -> (r: String)
        ensures
            r@ == "DVD-проигрыватель выключен"@,
    {
        "DVD-проигрыватель выключен".to_owned()
    }

    pub fn play(&self, movie: &str) -> (r: String)
        ensures
            r@ == "Воспроизведение фильма: "@ + movie@,
    {
        let mut s = "Воспроизведение фильма: ".to_owned();
        s.append(movie);
        s
    }

    pub fn stop(&self) -> (r: String)
        ensures
            r@ == "Остановка воспроизведения"@,
    {
        "Остановка воспроизведения".to_owned()
    }
}

/// The projector subsystem.
pub struct Projector;

impl Projector {
    pub fn on(&self) -> (r: String)
        ensures
            r@ == "Проектор включен"@,
    {
        "Проектор включен".to_owned()
    }

    pub fn off(&self) -> (r: String)
        ensures
            r@ == "Проектор выключен"@,
    {
        "Проектор выключен".to_owned()
    }

    pub fn wide_screen_mode(&self) -> (r: String)
        ensures
            r@ == "Проектор переключен в режим широкоэкранного изображения"@,
    {
        "Проектор переключен в режим широкоэкранного изображения".to_owned()
    }
}

/// The screen subsystem.
pub struct Screen;

impl Screen {
    pub fn up(&self) -> (r: String)
        ensures
            r@ == "Экран поднят"@,
    {
        "Экран поднят".to_owned()
    }

    pub fn down(&self) -> (r: String)
        ensures
            r@ == "Экран опущен"@,
    {
        "Экран опущен".to_owned()
    }
}

/// The lights subsystem.
pub struct TheaterLights;

impl TheaterLights {
    pub fn on(&self) -> (r: String)
        ensures
            r@ == "Подсветка включена"@,
    {
        "Подсветка включена".to_owned()
    }

    pub fn off(&self) -> (r: String)
        ensures
            r@ == "Подсветка выключена"@,
    {
        "Подсветка выключена".to_owned()
    }

    pub fn dim(&self, level: i32) -> (r: String)
        ensures
            r@ == "Подсветка приглушена до "@ + spec_decimal_signed(level as int),
    {
        let mut s = "Подсветка приглушена до ".to_owned();
        s.append(i32_to_string(level).as_str());
        s
    }
}

/// The lines preparing and starting a film produces, in order.
pub open spec fn watch_movie_lines(movie: Seq<char>) -> Seq<Seq<char>> {
    seq![
        "Подготовка к просмотру фильма..."@,
        "Подсветка приглушена до "@ + spec_decimal_signed(10),
        "Экран опущен"@,
        "Проектор включен"@,
        "Проектор переключен в режим широкоэкранного изображения"@,
        "Усилитель включен"@,
        "Громкость усилителя установлена на "@ + spec_decimal_signed(5),
        "DVD-проигрыватель включен"@,
        "Воспроизведение фильма: "@ + movie,
        "Наслаждайтесь фильмом!"@,
    ]
}

/// The lines ending a film produces, in order.
pub open spec fn end_movie_lines() -> Seq<Seq<char>> {
    seq![
        "Завершение просмотра фильма..."@,
        "Остановка воспроизведения"@,
        "DVD-проигрыватель выключен"@,
        "Усилитель выключен"@,
        "Проектор выключен"@,
        "Экран поднят"@,
        "Подсветка включена"@,
        "Фильм окончен."@,
    ]
}

/// The facade: drives all five subsystems through two entry points.
pub struct HomeTheaterFacade {
    amp: Amplifier,
    dvd: DvdPlayer,
    projector: Projector,
    screen: Screen,
    lights: TheaterLights,
}

impl HomeTheaterFacade {
    pub fn new() -> (facade: HomeTheaterFacade) {
        HomeTheaterFacade {
            amp: Amplifier,
            dvd: DvdPlayer,
            projector: Projector,
            screen: Screen,
            lights: TheaterLights,
        }
    }

    /// Prepares the room and starts the film.
    pub fn watch_movie(&self, movie: &str) -> (lines: Vec<String>)
        ensures
            lines@.map_values(|s: String| s@) == watch_movie_lines(movie@),
    {
        let mut lines: Vec<String> = Vec::new();
        lines.push("Подготовка к просмотру фильма...".to_owned());
        lines.push(self.lights.dim(10));
        lines.push(self.screen.down());
        lines.push(self.projector.on());
        lines.push(self.projector.wide_screen_mode());
        lines.push(self.amp.on());
        lines.push(self.amp.set_volume(5));
        lines.push(self.dvd.on());
        lines.push(self.dvd.play(movie));
        lines.push("Наслаждайтесь фильмом!".to_owned());
        proof {
            assert(lines@.map_values(|s: String| s@) =~= watch_movie_lines(movie@));
        }
        lines
    }

    /// Stops the film and restores the room.
    pub fn end_movie(&self) -> (lines: Vec<String>)
        ensures
            lines@.map_values(|s: String| s@) == end_movie_lines(),
    {
        let mut lines: Vec<String> = Vec::new();
        lines.push("Завершение просмотра фильма...".to_owned());
        lines.push(self.dvd.stop());
        lines.push(self.dvd.off());
        lines.push(self.amp.off());
        lines.push(self.projector.off());
        lines.push(self.screen.up());
        lines.push(self.lights.on());
        lines.push("Фильм окончен.".to_owned());
        proof {
            assert(lines@.map_values(|s: String| s@) =~= end_movie_lines());
        }
        lines
    }
}

} // verus!
