# scraper

Reads the log of a vehicle monitoring unit and presents its trips and
events: a collapsible event list, a GPS track and time-series plots.

- `src/` is the library, verified with Verus: the log grammar (a small
  backtracking matcher over the record shapes), the event decoder, the
  scanner that turns a log into events and trips, the event-list grouping
  and texts, the time-series data sets, the GPS track selection and the
  interaction modes of the plots. Floating-point work is left to the caller:
  plotted values travel as `f32` bit patterns.
- `app/` is the desktop application around it (eframe/egui): windows,
  file dialogs and file reading, settings, logging, and the drawing.
- `tests/` exercises the library on sample records.
