//! The colours of the user interface, for the dark and the light theme.
//!
//! A colour is given as the components that the widget toolkit builds it
//! from: opaque RGB, RGBA with straight alpha, or RGBA with premultiplied
//! alpha.

use vstd::prelude::*;

verus! {

/// A colour, by the components it is built from.
#[derive(Clone, Copy, Debug, PartialEq, Eq, Structural)]
pub enum Colour {
    /// Opaque red, green and blue.
    Rgb(u8, u8, u8),
    /// Red, green, blue and an alpha that has not been applied to them.
    RgbaUnmultiplied(u8, u8, u8, u8),
    /// Red, green, blue, already multiplied by the alpha, and the alpha.
    RgbaPremultiplied(u8, u8, u8, u8),
}

/// The background of the area around a plot.
pub fn plot_area_colour(dark_mode: bool) -> (r: Colour)
    ensures
        r == (if dark_mode {
            Colour::Rgb(30, 30, 30)
        } else {
            Colour::Rgb(255, 255, 255)
        }),
{
    if dark_mode {
        Colour::Rgb(30, 30, 30)
    } else {
        Colour::Rgb(255, 255, 255)
    }
}

/// The background of a plot.
pub fn plot_bkgnd_colour(dark_mode: bool) -> (r: Colour)
    ensures
        r == (if dark_mode {
            Colour::Rgb(40, 40, 40)
        } else {
            Colour::Rgb(250, 250, 250)
        }),
{
    if dark_mode {
        Colour::Rgb(40, 40, 40)
    } else {
        Colour::Rgb(250, 250, 250)
    }
}

/// The axes of a plot.
pub fn plot_axis_colour(dark_mode: bool) -> (r: Colour)
    ensures
        r == (if dark_mode {
            Colour::Rgb(169, 169, 169)
        } else {
            Colour::Rgb(211, 211, 211)
        }),
{
    if dark_mode {
        Colour::Rgb(169, 169, 169)
    } else {
        Colour::Rgb(211, 211, 211)
    }
}

/// The grid lines of a time-series plot.
pub fn ts_grid_lines_colour(dark_mode: bool) -> (r: Colour)
    ensures
        r == (if dark_mode {
            Colour::RgbaUnmultiplied(200, 200, 200, 150)
        } else {
            Colour::RgbaUnmultiplied(100, 100, 100, 100)
        }),
{
    if dark_mode {
        Colour::RgbaUnmultiplied(200, 200, 200, 150)
    } else {
        Colour::RgbaUnmultiplied(100, 100, 100, 100)
    }
}

/// The text of a plot.
pub fn plot_text_colour(dark_mode: bool) -> (r: Colour)
    ensures
        r == (if dark_mode {
            Colour::Rgb(255, 255, 255)
        } else {
            Colour::Rgb(0, 0, 0)
        }),
{
    if dark_mode {
        Colour::Rgb(255, 255, 255)
    } else {
        Colour::Rgb(0, 0, 0)
    }
}

/// The headers of events in the event log.
pub fn event_colour(dark_mode: bool) -> (r: Colour)
    ensures
        r == (if dark_mode {
            Colour::Rgb(58, 235, 14)
        } else {
            Colour::Rgb(56, 218, 4)
        }),
{
    if dark_mode {
        Colour::Rgb(58, 235, 14)
    } else {
        Colour::Rgb(56, 218, 4)
    }
}

/// The headers of events that the decoder does not know.
pub fn us_event_colour(dark_mode: bool) -> (r: Colour)
    ensures
        r == (if dark_mode {
            Colour::Rgb(204, 153, 255)
        } else {
            Colour::Rgb(153, 0, 204)
        }),
{
    if dark_mode {
        Colour::Rgb(204, 153, 255)
    } else {
        Colour::Rgb(153, 0, 204)
    }
}

/// The headers of events outside trips.
pub fn oot_event_colour(dark_mode: bool) -> (r: Colour)
    ensures
        r == (if dark_mode {
            Colour::Rgb(255, 204, 102)
        } else {
            Colour::Rgb(255, 153, 0)
        }),
{
    if dark_mode {
        Colour::Rgb(255, 204, 102)
    } else {
        Colour::Rgb(255, 153, 0)
    }
}

/// The headers of trip sections.
pub fn trip_colour(dark_mode: bool) -> (r: Colour)
    ensures
        r == (if dark_mode {
            Colour::Rgb(255, 255, 255)
        } else {
            Colour::Rgb(0, 0, 0)
        }),
{
    if dark_mode {
        Colour::Rgb(255, 255, 255)
    } else {
        Colour::Rgb(0, 0, 0)
    }
}

/// The labels of event details.
pub fn key_colour(dark_mode: bool) -> (r: Colour)
    ensures
        r == (if dark_mode {
            Colour::Rgb(255, 214, 51)
        } else {
            Colour::Rgb(186, 92, 18)
        }),
{
    if dark_mode {
        Colour::Rgb(255, 214, 51)
    } else {
        Colour::Rgb(186, 92, 18)
    }
}

/// The values of event details.
pub fn value_colour(dark_mode: bool) -> (r: Colour)
    ensures
        r == (if dark_mode {
            Colour::Rgb(112, 123, 124)
        } else {
            Colour::Rgb(52, 73, 94)
        }),
{
    if dark_mode {
        Colour::Rgb(112, 123, 124)
    } else {
        Colour::Rgb(52, 73, 94)
    }
}

/// The labels of the GPS rows of an event.
pub fn gps_key_colour(dark_mode: bool) -> (r: Colour)
    ensures
        r == (if dark_mode {
            Colour::Rgb(131, 198, 229)
        } else {
            Colour::Rgb(79, 97, 106)
        }),
{
    if dark_mode {
        Colour::Rgb(131, 198, 229)
    } else {
        Colour::Rgb(79, 97, 106)
    }
}

/// The values of the GPS rows of an event.
pub fn gps_value_colour(dark_mode: bool) -> (r: Colour)
    ensures
        r == (if dark_mode {
            Colour::Rgb(112, 123, 124)
        } else {
            Colour::Rgb(52, 73, 94)
        }),
{
    if dark_mode {
        Colour::Rgb(112, 123, 124)
    } else {
        Colour::Rgb(52, 73, 94)
    }
}

/// The borders of the window and of dialogs.
pub fn border_colour(dark_mode: bool) -> (r: Colour)
    ensures
        r == (if dark_mode {
            Colour::Rgb(100, 100, 100)
        } else {
            Colour::Rgb(128, 128, 128)
        }),
{
    if dark_mode {
        Colour::Rgb(100, 100, 100)
    } else {
        Colour::Rgb(128, 128, 128)
    }
}

/// Notices drawn on time-series plots.
pub fn ts_notices_colour(dark_mode: bool) -> (r: Colour)
    ensures
        r == (if dark_mode {
            Colour::Rgb(255, 255, 0)
        } else {
            Colour::Rgb(0, 102, 5)
        }),
{
    if dark_mode {
        Colour::Rgb(255, 255, 0)
    } else {
        Colour::Rgb(0, 102, 5)
    }
}

/// The line of a digital trace.
pub fn ts_digital_colour(dark_mode: bool) -> (r: Colour)
    ensures
        r == (if dark_mode {
            Colour::Rgb(255, 153, 0)
        } else {
            Colour::Rgb(255, 173, 51)
        }),
{
    if dark_mode {
        Colour::Rgb(255, 153, 0)
    } else {
        Colour::Rgb(255, 173, 51)
    }
}

/// The shading under a digital trace.
pub fn ts_digital_fill_colour(dark_mode: bool) -> (r: Colour)
    ensures
        r == (if dark_mode {
            Colour::RgbaUnmultiplied(255, 153, 0, 50)
        } else {
            Colour::RgbaUnmultiplied(255, 173, 51, 50)
        }),
{
    if dark_mode {
        Colour::RgbaUnmultiplied(255, 153, 0, 50)
    } else {
        Colour::RgbaUnmultiplied(255, 173, 51, 50)
    }
}

/// The line of an analog trace.
pub fn ts_analog_colour(dark_mode: bool) -> (r: Colour)
    ensures
        r == (if dark_mode {
            Colour::Rgb(0, 255, 0)
        } else {
            Colour::Rgb(102, 255, 102)
        }),
{
    if dark_mode {
        Colour::Rgb(0, 255, 0)
    } else {
        Colour::Rgb(102, 255, 102)
    }
}

/// Impulse markers.
pub fn ts_impulse_colour(dark_mode: bool) -> (r: Colour)
    ensures
        r == (if dark_mode {
            Colour::Rgb(255, 165, 0)
        } else {
            Colour::Rgb(255, 140, 0)
        }),
{
    if dark_mode {
        Colour::Rgb(255, 165, 0)
    } else {
        Colour::Rgb(255, 140, 0)
    }
}

/// Markers of the start of excess idling.
pub fn ts_xsidle_impulse_colour(dark_mode: bool) -> (r: Colour)
    ensures
        r == (if dark_mode {
            Colour::Rgb(0, 0, 255)
        } else {
            Colour::Rgb(128, 128, 255)
        }),
{
    if dark_mode {
        Colour::Rgb(0, 0, 255)
    } else {
        Colour::Rgb(128, 128, 255)
    }
}

/// Impacts of critical severity.
pub fn ts_impact_critical_colour(dark_mode: bool) -> (r: Colour)
    ensures
        r == (if dark_mode {
            Colour::Rgb(255, 0, 0)
        } else {
            Colour::Rgb(161, 52, 71)
        }),
{
    if dark_mode {
        Colour::Rgb(255, 0, 0)
    } else {
        Colour::Rgb(161, 52, 71)
    }
}

/// Impacts of warning severity.
pub fn ts_impact_warning_colour(dark_mode: bool) -> (r: Colour)
    ensures
        r == (if dark_mode {
            Colour::Rgb(242, 165, 93)
        } else {
            Colour::Rgb(240, 118, 4)
        }),
{
    if dark_mode {
        Colour::Rgb(242, 165, 93)
    } else {
        Colour::Rgb(240, 118, 4)
    }
}

/// Impacts of low severity.
pub fn ts_impact_low_colour(dark_mode: bool) -> (r: Colour)
    ensures
        r == (if dark_mode {
            Colour::Rgb(238, 245, 78)
        } else {
            Colour::Rgb(236, 245, 7)
        }),
{
    if dark_mode {
        Colour::Rgb(238, 245, 78)
    } else {
        Colour::Rgb(236, 245, 7)
    }
}

/// Traces of any other kind.
pub fn ts_fallback_colour(dark_mode: bool) -> (r: Colour)
    ensures
        r == (if dark_mode {
            Colour::Rgb(178, 179, 174)
        } else {
            Colour::Rgb(61, 61, 59)
        }),
{
    if dark_mode {
        Colour::Rgb(178, 179, 174)
    } else {
        Colour::Rgb(61, 61, 59)
    }
}

/// The pan-and-zoom button when it is on.
pub fn ts_enabled_button_colour(dark_mode: bool) -> (r: Colour)
    ensures
        r == (if dark_mode {
            Colour::Rgb(200, 255, 200)
        } else {
            Colour::Rgb(100, 150, 100)
        }),
{
    if dark_mode {
        Colour::Rgb(200, 255, 200)
    } else {
        Colour::Rgb(100, 150, 100)
    }
}

/// The text of the pan-and-zoom button when it is on.
pub fn ts_enabled_button_text_colour(dark_mode: bool) -> (r: Colour)
    ensures
        r == (if dark_mode {
            Colour::Rgb(0, 0, 0)
        } else {
            Colour::Rgb(255, 255, 255)
        }),
{
    if dark_mode {
        Colour::Rgb(0, 0, 0)
    } else {
        Colour::Rgb(255, 255, 255)
    }
}

/// The pan-and-zoom button when it is off.
pub fn ts_disabled_button_colour(dark_mode: bool) -> (r: Colour)
    ensures
        r == (if dark_mode {
            Colour::Rgb(80, 80, 80)
        } else {
            Colour::Rgb(230, 230, 230)
        }),
{
    if dark_mode {
        Colour::Rgb(80, 80, 80)
    } else {
        Colour::Rgb(230, 230, 230)
    }
}

/// The text of the pan-and-zoom button when it is off.
pub fn ts_disabled_button_text_colour(dark_mode: bool) -> (r: Colour)
    ensures
        r == (if dark_mode {
            Colour::Rgb(200, 200, 200)
        } else {
            Colour::Rgb(60, 60, 60)
        }),
{
    if dark_mode {
        Colour::Rgb(200, 200, 200)
    } else {
        Colour::Rgb(60, 60, 60)
    }
}

/// The time cursor.
pub fn ts_cursor_colour(dark_mode: bool) -> (r: Colour)
    ensures
        r == (if dark_mode {
            Colour::Rgb(255, 179, 255)
        } else {
            Colour::Rgb(153, 0, 153)
        }),
{
    if dark_mode {
        Colour::Rgb(255, 179, 255)
    } else {
        Colour::Rgb(153, 0, 153)
    }
}

/// The label of the time cursor.
pub fn ts_cursor_label_colour(dark_mode: bool) -> (r: Colour)
    ensures
        r == (if dark_mode {
            Colour::RgbaPremultiplied(40, 40, 40, 230)
        } else {
            Colour::RgbaPremultiplied(245, 245, 245, 230)
        }),
{
    if dark_mode {
        Colour::RgbaPremultiplied(40, 40, 40, 230)
    } else {
        Colour::RgbaPremultiplied(245, 245, 245, 230)
    }
}

} // verus!
